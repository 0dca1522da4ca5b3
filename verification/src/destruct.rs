//! The field classifier and the teardown synthesizer.
//!
//! The classifier maps one field schema to one teardown action; the
//! synthesizer orders the classified actions into a single teardown
//! procedure whose statements appear exactly in field declaration order.
//! Rendering the procedure into output text is left to an emission back
//! end; here a statement is plain data.

use vstd::prelude::*;
use crate::schema::{
    FieldModel, FieldSchema, FieldShape, FieldsModel, FieldsSchema, ReleaseStrategy, SchemaError,
    SchemaModel, ShapeModel, StructSchema, TeardownAction, field_models,
};
use crate::utils::{contains_seq, contains_str};

verus! {

/// The substring marker for the platform character type. Any qualified
/// spelling of the C character type contains it.
pub open spec fn char_marker() -> Seq<char> {
    "c_char"@
}

/// The release strategy selected for a pointee descriptor: a descriptor
/// that contains the character-type marker releases a null-terminated
/// byte-sequence owner, any other descriptor releases a single
/// heap-allocated value of the declared pointee type.
pub open spec fn spec_strategy(pointee: Seq<char>) -> ReleaseStrategy {
    if contains_seq(pointee, char_marker()) {
        ReleaseStrategy::StringRelease
    } else {
        ReleaseStrategy::GenericRelease
    }
}

/// Classification of one field, rules applied in order: a non-pointer
/// field is skipped unless tagged (an error); a nested pointer is an
/// error; `no_drop` suppresses release regardless of `nullable`;
/// `nullable` guards the release; an untagged pointer releases
/// unconditionally.
pub open spec fn spec_classify(f: FieldModel) -> Result<TeardownAction, SchemaError> {
    match f.shape {
        ShapeModel::Other => if f.nullable || f.no_release {
            Err(SchemaError::AttributeOnNonPointer)
        } else {
            Ok(TeardownAction::Skip)
        },
        ShapeModel::RawPointer { pointee, pointee_is_pointer } => if pointee_is_pointer {
            Err(SchemaError::NestedRawPointer)
        } else if f.no_release {
            Ok(TeardownAction::Suppressed)
        } else if f.nullable {
            Ok(TeardownAction::GuardedRelease(spec_strategy(pointee)))
        } else {
            Ok(TeardownAction::Release(spec_strategy(pointee)))
        },
    }
}

/// The declared pointee descriptor of a field; empty for non-pointers.
pub open spec fn spec_pointee(f: FieldModel) -> Seq<char> {
    match f.shape {
        ShapeModel::RawPointer { pointee, pointee_is_pointer } => pointee,
        ShapeModel::Other => Seq::empty(),
    }
}

/// Whether a pointee descriptor names the platform character type.
///
/// The test is a permissive substring match, deliberately independent of
/// namespace or module qualification: a descriptor that merely embeds the
/// marker in a longer name also matches.
pub fn is_c_char(path: &str) -> (r: bool)
    ensures
        r == contains_seq(path@, char_marker()),
{
    contains_str(path, "c_char")
}

/// Select the release strategy for a pointee descriptor.
pub fn select_strategy(pointee: &str) -> (r: ReleaseStrategy)
    ensures
        r == spec_strategy(pointee@),
{
    if is_c_char(pointee) {
        ReleaseStrategy::StringRelease
    } else {
        ReleaseStrategy::GenericRelease
    }
}

/// Classify one field into its teardown action, or fail on a tagged
/// non-pointer field or a nested raw pointer.
pub fn classify_field(f: &FieldSchema) -> (r: Result<TeardownAction, SchemaError>)
    ensures
        r == spec_classify(f@),
{
    match &f.shape {
        FieldShape::Other => {
            if f.nullable || f.no_release {
                Err(SchemaError::AttributeOnNonPointer)
            } else {
                Ok(TeardownAction::Skip)
            }
        },
        FieldShape::RawPointer { pointee, pointee_is_pointer } => {
            if *pointee_is_pointer {
                Err(SchemaError::NestedRawPointer)
            } else if f.no_release {
                Ok(TeardownAction::Suppressed)
            } else if f.nullable {
                Ok(TeardownAction::GuardedRelease(select_strategy(pointee.as_str())))
            } else {
                Ok(TeardownAction::Release(select_strategy(pointee.as_str())))
            }
        },
    }
}

/// One synthesized per-field release statement.
#[derive(Clone, Debug, PartialEq, Eq)]
pub struct TeardownStmt {
    /// The field whose pointer is released.
    pub field: String,
    /// The declared pointee descriptor, the cast target of a generic
    /// release.
    pub pointee: String,
    pub strategy: ReleaseStrategy,
    /// Whether the statement is wrapped in a non-null guard.
    pub guarded: bool,
}

/// Ghost model of one release statement.
#[verifier::ext_equal]
pub struct StmtModel {
    pub field: Seq<char>,
    pub pointee: Seq<char>,
    pub strategy: ReleaseStrategy,
    pub guarded: bool,
}

impl View for TeardownStmt {
    type V = StmtModel;

    open spec fn view(&self) -> StmtModel {
        StmtModel {
            field: self.field@,
            pointee: self.pointee@,
            strategy: self.strategy,
            guarded: self.guarded,
        }
    }
}

/// The models of a sequence of statements, in order.
pub open spec fn stmt_models(stmts: Seq<TeardownStmt>) -> Seq<StmtModel> {
    stmts.map_values(|s: TeardownStmt| s@)
}

/// The statements (none or one) synthesized for one field: skipped and
/// suppressed fields emit nothing, released fields emit one statement,
/// guarded exactly when the release is guarded.
pub open spec fn spec_field_stmts(f: FieldModel) -> Result<Seq<StmtModel>, SchemaError> {
    match spec_classify(f) {
        Err(e) => Err(e),
        Ok(TeardownAction::Skip) => Ok(Seq::empty()),
        Ok(TeardownAction::Suppressed) => Ok(Seq::empty()),
        Ok(TeardownAction::Release(st)) => Ok(
            seq![StmtModel { field: f.name, pointee: spec_pointee(f), strategy: st, guarded: false }],
        ),
        Ok(TeardownAction::GuardedRelease(st)) => Ok(
            seq![StmtModel { field: f.name, pointee: spec_pointee(f), strategy: st, guarded: true }],
        ),
    }
}

/// The statements synthesized for a field list, in declaration order;
/// generation aborts at the first field in error.
pub open spec fn spec_stmts(fields: Seq<FieldModel>) -> Result<Seq<StmtModel>, SchemaError>
    decreases fields.len(),
{
    if fields.len() == 0 {
        Ok(Seq::empty())
    } else {
        match spec_field_stmts(fields[0]) {
            Err(e) => Err(e),
            Ok(first) => match spec_stmts(fields.drop_first()) {
                Err(e) => Err(e),
                Ok(rest) => Ok(first + rest),
            },
        }
    }
}

/// Statements already synthesized, combined with the outcome for the
/// remaining fields.
pub open spec fn spec_prepend(
    acc: Seq<StmtModel>,
    rest: Result<Seq<StmtModel>, SchemaError>,
) -> Result<Seq<StmtModel>, SchemaError> {
    match rest {
        Ok(s) => Ok(acc + s),
        Err(e) => Err(e),
    }
}

/// The declared pointee descriptor of a field; empty for non-pointers.
fn field_pointee(f: &FieldSchema) -> (r: String)
    ensures
        r@ == spec_pointee(f@),
{
    match &f.shape {
        FieldShape::RawPointer { pointee, pointee_is_pointer: _ } => pointee.clone(),
        FieldShape::Other => String::new(),
    }
}

/// Build the release statement for one raw-pointer field, selecting the
/// strategy from its pointee descriptor.
pub fn destruct_type_ptr(f: &FieldSchema, guarded: bool) -> (s: TeardownStmt)
    ensures
        s@ == (StmtModel {
            field: f@.name,
            pointee: spec_pointee(f@),
            strategy: spec_strategy(spec_pointee(f@)),
            guarded,
        }),
{
    let pointee = field_pointee(f);
    let strategy = select_strategy(pointee.as_str());
    TeardownStmt { field: f.name.clone(), pointee, strategy, guarded }
}

/// Synthesize the ordered release statements for a field list: one
/// statement per released field, in declaration order, aborting with the
/// first classification error.
pub fn field_destructors(fields: &Vec<FieldSchema>) -> (r: Result<Vec<TeardownStmt>, SchemaError>)
    ensures
        (match r {
            Ok(stmts) => spec_stmts(field_models(fields@)) == Ok::<Seq<StmtModel>, SchemaError>(
                stmt_models(stmts@),
            ),
            Err(e) => spec_stmts(field_models(fields@)) == Err::<Seq<StmtModel>, SchemaError>(e),
        }),
{
    let ghost fm = field_models(fields@);
    let mut stmts: Vec<TeardownStmt> = Vec::new();
    let mut i: usize = 0;
    proof {
        assert(fm.skip(0) =~= fm);
        assert(stmt_models(stmts@) =~= Seq::<StmtModel>::empty());
        assert(spec_prepend(stmt_models(stmts@), spec_stmts(fm)) == spec_stmts(fm)) by {
            if let Ok(s) = spec_stmts(fm) {
                assert(stmt_models(stmts@) + s =~= s);
            }
        }
    }
    while i < fields.len()
        invariant
            i <= fields@.len(),
            fm == field_models(fields@),
            spec_stmts(fm) == spec_prepend(stmt_models(stmts@), spec_stmts(fm.skip(i as int))),
        decreases fields@.len() - i,
    {
        proof {
            assert(fm[i as int] == fields@[i as int]@);
            assert(fm.skip(i as int)[0] == fm[i as int]);
            assert(fm.skip(i as int).drop_first() =~= fm.skip(i as int + 1));
        }
        let ghost prev = stmts@;
        let f = &fields[i];
        let classified = classify_field(f);
        match classified {
            Err(e) => {
                proof {
                    assert(spec_stmts(fm.skip(i as int)) == Err::<Seq<StmtModel>, SchemaError>(e));
                }
                return Err(e);
            },
            Ok(TeardownAction::Skip) => {},
            Ok(TeardownAction::Suppressed) => {},
            Ok(TeardownAction::Release(_)) => {
                let s = destruct_type_ptr(f, false);
                stmts.push(s);
            },
            Ok(TeardownAction::GuardedRelease(_)) => {
                let s = destruct_type_ptr(f, true);
                stmts.push(s);
            },
        }
        proof {
            let first = match spec_field_stmts(fm[i as int]) {
                Ok(first) => first,
                Err(e) => Seq::<StmtModel>::empty(),
            };
            assert(spec_field_stmts(fm[i as int]) == Ok::<Seq<StmtModel>, SchemaError>(first));
            assert(stmt_models(stmts@) =~= stmt_models(prev) + first);
            let rest = spec_stmts(fm.skip(i as int + 1));
            assert(spec_stmts(fm.skip(i as int)) == spec_prepend(first, rest));
            if let Ok(rest_s) = rest {
                assert((stmt_models(prev) + first) + rest_s =~= stmt_models(prev) + (first
                    + rest_s));
            }
            assert(spec_stmts(fm) == spec_prepend(stmt_models(stmts@), rest));
        }
        i += 1;
    }
    proof {
        assert(fm.skip(fields@.len() as int) =~= Seq::<FieldModel>::empty());
        assert(spec_stmts(fm.skip(fields@.len() as int)) == Ok::<Seq<StmtModel>, SchemaError>(
            Seq::empty(),
        ));
        assert(stmt_models(stmts@) + Seq::<StmtModel>::empty() =~= stmt_models(stmts@));
    }
    Ok(stmts)
}

/// Ghost model of a teardown procedure.
#[verifier::ext_equal]
pub struct ProcModel {
    pub ty_name: Seq<char>,
    pub stmts: Seq<StmtModel>,
}

/// The assembled teardown procedure of one type: its ordered release
/// statements, attached by the emission back end as the type's teardown
/// hook.
#[derive(Clone, Debug, PartialEq, Eq)]
pub struct TeardownProc {
    pub ty_name: String,
    pub stmts: Vec<TeardownStmt>,
}

impl View for TeardownProc {
    type V = ProcModel;

    open spec fn view(&self) -> ProcModel {
        ProcModel { ty_name: self.ty_name@, stmts: stmt_models(self.stmts@) }
    }
}

/// The teardown procedure generated for a whole schema: only a named-field
/// record with at least one field is accepted.
pub open spec fn spec_teardown(s: SchemaModel) -> Result<ProcModel, SchemaError> {
    match s.fields {
        FieldsModel::Named(fields) => if fields.len() == 0 {
            Err(SchemaError::EmptyFields)
        } else {
            match spec_stmts(fields) {
                Err(e) => Err(e),
                Ok(stmts) => Ok(ProcModel { ty_name: s.name, stmts }),
            }
        },
        FieldsModel::Positional => Err(SchemaError::PositionalFields),
        FieldsModel::Unit => Err(SchemaError::EmptyFields),
    }
}

/// Assemble the teardown procedure for a schema, aborting with a
/// descriptive error on a malformed shape or a misclassified field and
/// producing no partial output.
pub fn impl_destruct_macro(schema: &StructSchema) -> (r: Result<TeardownProc, SchemaError>)
    ensures
        (match r {
            Ok(p) => spec_teardown(schema@) == Ok::<ProcModel, SchemaError>(p@),
            Err(e) => spec_teardown(schema@) == Err::<ProcModel, SchemaError>(e),
        }),
{
    match &schema.fields {
        FieldsSchema::Named(fields) => {
            if fields.len() == 0 {
                Err(SchemaError::EmptyFields)
            } else {
                match field_destructors(fields) {
                    Err(e) => Err(e),
                    Ok(stmts) => Ok(TeardownProc { ty_name: schema.name.clone(), stmts }),
                }
            }
        },
        FieldsSchema::Positional => Err(SchemaError::PositionalFields),
        FieldsSchema::Unit => Err(SchemaError::EmptyFields),
    }
}

/// Law: a raw-pointer field whose pointee descriptor contains the
/// character-type marker synthesizes a string release; one whose
/// descriptor does not synthesizes a generic release.
pub proof fn lemma_marker_selects_string_release(
    name: Seq<char>,
    pointee: Seq<char>,
    nullable: bool,
)
    ensures
        contains_seq(pointee, char_marker()) ==> spec_field_stmts(
            (FieldModel {
                name,
                shape: (ShapeModel::RawPointer { pointee, pointee_is_pointer: false }),
                nullable,
                no_release: false,
            }),
        ) == Ok::<Seq<StmtModel>, SchemaError>(
            seq![
                (StmtModel {
                    field: name,
                    pointee,
                    strategy: ReleaseStrategy::StringRelease,
                    guarded: nullable,
                })
            ],
        ),
        !contains_seq(pointee, char_marker()) ==> spec_field_stmts(
            (FieldModel {
                name,
                shape: (ShapeModel::RawPointer { pointee, pointee_is_pointer: false }),
                nullable,
                no_release: false,
            }),
        ) == Ok::<Seq<StmtModel>, SchemaError>(
            seq![
                (StmtModel {
                    field: name,
                    pointee,
                    strategy: ReleaseStrategy::GenericRelease,
                    guarded: nullable,
                })
            ],
        ),
{
}

/// Law: a `nullable` (and not `no_drop`) raw-pointer field synthesizes a
/// statement guarded by a non-null test; an untagged raw-pointer field
/// synthesizes an unguarded statement.
pub proof fn lemma_nullable_guards_release(name: Seq<char>, pointee: Seq<char>, nullable: bool)
    ensures
        spec_field_stmts(
            (FieldModel {
                name,
                shape: (ShapeModel::RawPointer { pointee, pointee_is_pointer: false }),
                nullable,
                no_release: false,
            }),
        ) == Ok::<Seq<StmtModel>, SchemaError>(
            seq![
                (StmtModel {
                    field: name,
                    pointee,
                    strategy: spec_strategy(pointee),
                    guarded: nullable,
                })
            ],
        ),
{
}

/// Law: a `no_drop` raw-pointer field emits no statement, irrespective of
/// its `nullable` tag.
pub proof fn lemma_no_release_suppresses(name: Seq<char>, pointee: Seq<char>, nullable: bool)
    ensures
        spec_field_stmts(
            (FieldModel {
                name,
                shape: (ShapeModel::RawPointer { pointee, pointee_is_pointer: false }),
                nullable,
                no_release: true,
            }),
        ) == Ok::<Seq<StmtModel>, SchemaError>(Seq::empty()),
{
}

/// Law: a non-pointer field emits no statement, and tagging one with
/// either attribute is a generation error.
pub proof fn lemma_other_fields_emit_nothing(name: Seq<char>, nullable: bool, no_release: bool)
    ensures
        !nullable && !no_release ==> spec_field_stmts(
            (FieldModel { name, shape: ShapeModel::Other, nullable, no_release }),
        ) == Ok::<Seq<StmtModel>, SchemaError>(Seq::empty()),
        nullable || no_release ==> spec_field_stmts(
            (FieldModel { name, shape: ShapeModel::Other, nullable, no_release }),
        ) == Err::<Seq<StmtModel>, SchemaError>(SchemaError::AttributeOnNonPointer),
{
}

} // verus!
