//! The entry-point generator: derives, per opted-in type, one exported
//! foreign-callable free function with a deterministic symbol name and a
//! null-tolerant body.

use vstd::prelude::*;

verus! {

/// What snake-casing returns for a character sequence. The conversion
/// splits at existing separators and case transitions, lower-cases the
/// words and joins them with underscores; its exact word-splitting rule is
/// fixed by the one conversion routine every generated symbol goes
/// through.
pub uninterp spec fn snake_of(s: Seq<char>) -> Seq<char>;

/// Relies on convert_case's `Casing::to_case` with `Case::Snake`: the
/// result depends on the input characters alone.
#[verifier::external_body]
fn to_snake_case(s: &str) -> (r: String)
    ensures
        r@ == snake_of(s@),
{
    convert_case::Casing::to_case(&s, convert_case::Case::Snake)
}

/// One instruction of a generated entry-point body.
#[derive(Clone, Copy, Debug, PartialEq, Eq, Structural)]
pub enum EntryInstr {
    /// Return immediately when the argument pointer is null, touching
    /// nothing.
    ReturnIfNull,
    /// Take exclusive ownership of the pointed-to instance and release it,
    /// which runs the type's teardown procedure.
    ReleaseInstance,
}

/// Ghost model of a generated entry point.
#[verifier::ext_equal]
pub struct EntryPointModel {
    pub fn_name: Seq<char>,
    pub body: Seq<EntryInstr>,
}

/// A generated foreign-callable destructor: the exported symbol name and
/// the ordered body instructions. The signature is fixed by the emission
/// back end: one pointer to the type, no return value.
#[derive(Clone, Debug, PartialEq, Eq)]
pub struct EntryPoint {
    pub fn_name: String,
    pub body: Vec<EntryInstr>,
}

impl View for EntryPoint {
    type V = EntryPointModel;

    open spec fn view(&self) -> EntryPointModel {
        EntryPointModel { fn_name: self.fn_name@, body: self.body@ }
    }
}

/// The fixed prefix of every generated entry-point symbol.
pub open spec fn destruct_prefix() -> Seq<char> {
    "destruct_"@
}

/// The entry point generated for a type name: the prefixed snake-case
/// symbol, and a body that guards against null before releasing.
pub open spec fn spec_entry_point(ty_name: Seq<char>) -> EntryPointModel {
    EntryPointModel {
        fn_name: destruct_prefix() + snake_of(ty_name),
        body: seq![EntryInstr::ReturnIfNull, EntryInstr::ReleaseInstance],
    }
}

/// Generate the exported destructor for one type name.
pub fn generate_entry_point(ty_name: &str) -> (r: EntryPoint)
    ensures
        r@ == spec_entry_point(ty_name@),
{
    let snake = to_snake_case(ty_name);
    let fn_name = String::from_str("destruct_").concat(snake.as_str());
    let mut body: Vec<EntryInstr> = Vec::new();
    body.push(EntryInstr::ReturnIfNull);
    body.push(EntryInstr::ReleaseInstance);
    let ep = EntryPoint { fn_name, body };
    proof {
        assert(ep@.body =~= spec_entry_point(ty_name@).body);
        assert(ep@ =~= spec_entry_point(ty_name@));
    }
    ep
}

/// The instructions of an entry-point body that actually execute when the
/// argument pointer is null: execution stops at the first null-return
/// guard.
pub open spec fn spec_executed_on_null(body: Seq<EntryInstr>) -> Seq<EntryInstr>
    decreases body.len(),
{
    if body.len() == 0 {
        Seq::empty()
    } else if body[0] == EntryInstr::ReturnIfNull {
        Seq::empty()
    } else {
        seq![body[0]] + spec_executed_on_null(body.drop_first())
    }
}

/// An instruction that dereferences the argument pointer.
pub open spec fn spec_dereferences(i: EntryInstr) -> bool {
    i == EntryInstr::ReleaseInstance
}

/// Law: called on a null pointer, a generated entry point returns at its
/// leading guard; no executed instruction dereferences the pointer.
pub proof fn lemma_entry_point_null_is_noop(ty_name: Seq<char>)
    ensures
        spec_executed_on_null(spec_entry_point(ty_name).body) == Seq::<EntryInstr>::empty(),
        forall|j: int|
            0 <= j < spec_executed_on_null(spec_entry_point(ty_name).body).len()
                ==> !spec_dereferences(spec_executed_on_null(spec_entry_point(ty_name).body)[j]),
{
}

} // verus!
