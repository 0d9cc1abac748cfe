use vstd::prelude::*;
use vstd::string::StringSliceAdditionalSpecFns;

verus! {

/// The C form of a byte string: the bytes followed by a terminating NUL.
pub open spec fn nul_terminated(bytes: Seq<u8>) -> Seq<u8> {
    bytes.push(0u8)
}

/// `position` is the first NUL byte of `bytes`.
pub open spec fn first_nul_at(bytes: Seq<u8>, position: int) -> bool {
    &&& 0 <= position < bytes.len()
    &&& bytes[position] == 0u8
    &&& forall|i: int| 0 <= i < position ==> bytes[i] != 0u8
}

/// A string that holds a NUL byte has no C form: the C side would see only
/// the part before it.
#[derive(Clone, Copy, Debug, PartialEq, Eq, Structural)]
pub struct InteriorNul {
    /// The index of the first NUL byte.
    pub position: usize,
}

/// The C form of `s`: its bytes followed by a NUL, or the position of the
/// first NUL byte that `s` already holds.
pub fn c_string(s: &str) -> (res: Result<Vec<u8>, InteriorNul>)
    ensures
        res is Ok <==> !s.spec_bytes().contains(0u8),
        res matches Ok(v) ==> v@ == nul_terminated(s.spec_bytes()),
        res matches Err(e) ==> first_nul_at(s.spec_bytes(), e.position as int),
{
    let bytes = s.as_bytes();
    let mut out: Vec<u8> = Vec::new();
    let mut i: usize = 0;
    while i < bytes.len()
        invariant
            bytes@ == s.spec_bytes(),
            i <= bytes@.len(),
            out@ == bytes@.take(i as int),
            forall|j: int| 0 <= j < i ==> bytes@[j] != 0u8,
        decreases bytes@.len() - i,
    {
        if bytes[i] == 0 {
            assert(bytes@[i as int] == 0u8);
            return Err(InteriorNul { position: i });
        }
        out.push(bytes[i]);
        i += 1;
        assert(out@ =~= bytes@.take(i as int));
    }
    assert(bytes@.take(i as int) =~= bytes@);
    assert(!bytes@.contains(0u8));
    out.push(0);
    Ok(out)
}

/// The bytes of `s` followed by a NUL, whatever `s` holds. Where `s` holds a
/// NUL byte, the C side reads only the part before the first one.
pub fn c_string_unchecked(s: &str) -> (v: Vec<u8>)
    ensures
        v@ == nul_terminated(s.spec_bytes()),
{
    let bytes = s.as_bytes();
    let mut out: Vec<u8> = Vec::new();
    let mut i: usize = 0;
    while i < bytes.len()
        invariant
            bytes@ == s.spec_bytes(),
            i <= bytes@.len(),
            out@ == bytes@.take(i as int),
        decreases bytes@.len() - i,
    {
        out.push(bytes[i]);
        i += 1;
        assert(out@ =~= bytes@.take(i as int));
    }
    assert(bytes@.take(i as int) =~= bytes@);
    out.push(0);
    out
}

/// Dropping the terminator of a C form gives back the original bytes, and a
/// C form holds exactly one NUL, at its end.
pub proof fn lemma_nul_terminated_round_trip(bytes: Seq<u8>)
    requires
        !bytes.contains(0u8),
    ensures
        nul_terminated(bytes).drop_last() == bytes,
        first_nul_at(nul_terminated(bytes), bytes.len() as int),
{
    assert(nul_terminated(bytes).drop_last() =~= bytes);
    assert forall|i: int| 0 <= i < bytes.len() implies nul_terminated(bytes)[i] != 0u8 by {
        if nul_terminated(bytes)[i] == 0u8 {
            assert(bytes[i] == 0u8);
        }
    }
}

/// The five parts of an RMLVO name set (Rules + Model + Layout + Variant +
/// Options), in the order in which they are checked.
#[derive(Clone, Copy, Debug, PartialEq, Eq, Structural)]
pub enum RuleField {
    Rules,
    Model,
    Layout,
    Variant,
    Options,
}

/// A part of an RMLVO name set that holds a NUL byte.
#[derive(Clone, Copy, Debug, PartialEq, Eq, Structural)]
pub struct RuleNameError {
    /// The first part, in the order rules, model, layout, variant, options,
    /// that holds a NUL byte.
    pub field: RuleField,
    /// The index of the first NUL byte in that part.
    pub position: usize,
}

/// The C forms of the five names from which a keymap is compiled.
pub struct RuleNames {
    rules: Vec<u8>,
    model: Vec<u8>,
    layout: Vec<u8>,
    variant: Vec<u8>,
    options: Vec<u8>,
}

/// The error for the first of the five names that holds a NUL byte.
pub open spec fn rule_name_error_matches(
    e: RuleNameError,
    rules: Seq<u8>,
    model: Seq<u8>,
    layout: Seq<u8>,
    variant: Seq<u8>,
    options: Seq<u8>,
) -> bool {
    match e.field {
        RuleField::Rules => first_nul_at(rules, e.position as int),
        RuleField::Model => !rules.contains(0u8) && first_nul_at(model, e.position as int),
        RuleField::Layout => {
            &&& !rules.contains(0u8)
            &&& !model.contains(0u8)
            &&& first_nul_at(layout, e.position as int)
        },
        RuleField::Variant => {
            &&& !rules.contains(0u8)
            &&& !model.contains(0u8)
            &&& !layout.contains(0u8)
            &&& first_nul_at(variant, e.position as int)
        },
        RuleField::Options => {
            &&& !rules.contains(0u8)
            &&& !model.contains(0u8)
            &&& !layout.contains(0u8)
            &&& !variant.contains(0u8)
            &&& first_nul_at(options, e.position as int)
        },
    }
}

impl RuleNames {
    /// The C form of the rules name.
    pub closed spec fn rules_c(&self) -> Seq<u8> {
        self.rules@
    }

    /// The C form of the model name.
    pub closed spec fn model_c(&self) -> Seq<u8> {
        self.model@
    }

    /// The C form of the layout name.
    pub closed spec fn layout_c(&self) -> Seq<u8> {
        self.layout@
    }

    /// The C form of the variant name.
    pub closed spec fn variant_c(&self) -> Seq<u8> {
        self.variant@
    }

    /// The C form of the options name.
    pub closed spec fn options_c(&self) -> Seq<u8> {
        self.options@
    }

    /// Builds the C forms of the five names; fails on the first of them, in
    /// the order rules, model, layout, variant, options, that holds a NUL
    /// byte.
    pub fn new(rules: &str, model: &str, layout: &str, variant: &str, options: &str) -> (res: Result<
        RuleNames,
        RuleNameError,
    >)
        ensures
            res is Ok <==> {
                &&& !rules.spec_bytes().contains(0u8)
                &&& !model.spec_bytes().contains(0u8)
                &&& !layout.spec_bytes().contains(0u8)
                &&& !variant.spec_bytes().contains(0u8)
                &&& !options.spec_bytes().contains(0u8)
            },
            res matches Ok(names) ==> {
                &&& names.rules_c() == nul_terminated(rules.spec_bytes())
                &&& names.model_c() == nul_terminated(model.spec_bytes())
                &&& names.layout_c() == nul_terminated(layout.spec_bytes())
                &&& names.variant_c() == nul_terminated(variant.spec_bytes())
                &&& names.options_c() == nul_terminated(options.spec_bytes())
            },
            res matches Err(e) ==> rule_name_error_matches(
                e,
                rules.spec_bytes(),
                model.spec_bytes(),
                layout.spec_bytes(),
                variant.spec_bytes(),
                options.spec_bytes(),
            ),
    {
        let rules = match c_string(rules) {
            Ok(v) => v,
            Err(e) => { return Err(RuleNameError { field: RuleField::Rules, position: e.position }); },
        };
        let model = match c_string(model) {
            Ok(v) => v,
            Err(e) => { return Err(RuleNameError { field: RuleField::Model, position: e.position }); },
        };
        let layout = match c_string(layout) {
            Ok(v) => v,
            Err(e) => { return Err(RuleNameError { field: RuleField::Layout, position: e.position }); },
        };
        let variant = match c_string(variant) {
            Ok(v) => v,
            Err(e) => {
                return Err(RuleNameError { field: RuleField::Variant, position: e.position });
            },
        };
        let options = match c_string(options) {
            Ok(v) => v,
            Err(e) => {
                return Err(RuleNameError { field: RuleField::Options, position: e.position });
            },
        };
        Ok(RuleNames { rules, model, layout, variant, options })
    }

    /// The C form of the rules name.
    pub fn rules(&self) -> (b: &[u8])
        ensures
            b@ == self.rules_c(),
    {
        self.rules.as_slice()
    }

    /// The C form of the model name.
    pub fn model(&self) -> (b: &[u8])
        ensures
            b@ == self.model_c(),
    {
        self.model.as_slice()
    }

    /// The C form of the layout name.
    pub fn layout(&self) -> (b: &[u8])
        ensures
            b@ == self.layout_c(),
    {
        self.layout.as_slice()
    }

    /// The C form of the variant name.
    pub fn variant(&self) -> (b: &[u8])
        ensures
            b@ == self.variant_c(),
    {
        self.variant.as_slice()
    }

    /// The C form of the options name.
    pub fn options(&self) -> (b: &[u8])
        ensures
            b@ == self.options_c(),
    {
        self.options.as_slice()
    }
}

} // verus!
