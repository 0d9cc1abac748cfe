use vstd::prelude::*;

verus! {

/// The C functions answer a yes/no question, or report success, with the
/// status 1; 0 stands for "no" or failure, and -1 for an index or a name that
/// the keymap does not have.
pub open spec fn status_means_yes(status: i32) -> bool {
    status == 1
}

/// Reads a status code of the C library as a yes/no answer: yes exactly for
/// the status 1.
pub fn status_is_yes(status: i32) -> (yes: bool)
    ensures
        yes == status_means_yes(status),
        yes <==> status == 1,
{
    status == 1
}

/// How many bytes of text a C function left in a buffer with room for
/// `capacity` bytes of text (and the terminating NUL), when it reported
/// `reported` bytes of text: none for a report of zero or less (nothing to
/// write, or an error), the report itself when it fits, and the truncated
/// `capacity` otherwise.
pub open spec fn text_len(reported: int, capacity: int) -> int {
    if reported <= 0 {
        0
    } else if reported > capacity {
        capacity
    } else {
        reported
    }
}

/// Copies the first `n` bytes of `buf`.
fn copy_prefix(buf: &[u8], n: usize) -> (v: Vec<u8>)
    requires
        n <= buf@.len(),
    ensures
        v@ == buf@.take(n as int),
{
    let mut out: Vec<u8> = Vec::new();
    let mut i: usize = 0;
    while i < n
        invariant
            i <= n,
            n <= buf@.len(),
            out@ == buf@.take(i as int),
        decreases n - i,
    {
        out.push(buf[i]);
        i += 1;
        assert(out@ =~= buf@.take(i as int));
    }
    out
}

/// The text that a C function wrote into `buf` in the manner of `snprintf`:
/// `reported` is the length of the full text without the terminating NUL, or
/// negative on error; a text longer than the buffer can hold was truncated to
/// `buf.len() - 1` bytes.
pub fn text_from_buffer(buf: &[u8], reported: i32) -> (text: Vec<u8>)
    requires
        buf@.len() >= 1,
    ensures
        text@ == buf@.take(text_len(reported as int, buf@.len() - 1)),
        text@.len() < buf@.len(),
        0 <= reported < buf@.len() ==> text@.len() == reported,
        reported <= 0 ==> text@.len() == 0,
{
    let capacity = buf.len() - 1;
    let n: usize = if reported <= 0 {
        0
    } else if reported as usize > capacity {
        capacity
    } else {
        reported as usize
    };
    copy_prefix(buf, n)
}

/// The text that a C function wrote into `buf` when it reports the number of
/// bytes written including the terminating NUL (0 when there is nothing to
/// write, negative when the buffer is too small). The text is what precedes
/// the terminator.
pub fn text_from_buffer_with_nul(buf: &[u8], reported: i32) -> (text: Vec<u8>)
    requires
        buf@.len() >= 1,
    ensures
        text@ == buf@.take(text_len(reported - 1, buf@.len() - 1)),
        text@.len() < buf@.len(),
        1 <= reported <= buf@.len() ==> text@.len() == reported - 1,
        reported <= 1 ==> text@.len() == 0,
{
    let capacity = buf.len() - 1;
    let n: usize = if reported <= 1 {
        0
    } else if (reported - 1) as usize > capacity {
        capacity
    } else {
        (reported - 1) as usize
    };
    copy_prefix(buf, n)
}

/// The text read from a buffer is a prefix of the buffer that leaves room for
/// the terminator, and reading with the report that the C side gives for a
/// text that fits gives that text back in full.
pub proof fn lemma_text_is_prefix(buf: Seq<u8>, reported: int)
    requires
        buf.len() >= 1,
    ensures
        0 <= text_len(reported, buf.len() - 1) < buf.len(),
        buf.take(text_len(reported, buf.len() - 1)).is_prefix_of(buf),
        0 <= reported < buf.len() ==> buf.take(text_len(reported, buf.len() - 1)) == buf.take(
            reported,
        ),
{
    assert(buf.take(text_len(reported, buf.len() - 1)).is_prefix_of(buf));
}

} // verus!
