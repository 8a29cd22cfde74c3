//! The decision content of the derive-style trigger-method generator:
//! given the fields of a record type, exactly the fields whose type is
//! the event type receive a trigger method, named after the field, and
//! an input that is not a structured record type is rejected. Reading
//! the source syntax and emitting the generated code stay outside the
//! library.

use vstd::prelude::*;
use vstd::string::StringExecFns;

verus! {

/// A field of a record type, as the generator sees it: the field's name
/// and the name of its type.
pub struct FieldInfo {
    /// The field's own name.
    pub name: String,
    /// The name of the field's type.
    pub ty: String,
}

/// The failure conditions of the trigger-method generator.
#[derive(Clone, Copy, PartialEq, Eq, Structural, Debug)]
pub enum DeriveError {
    /// The input is not a structured record type.
    NotAStruct,
}

/// The name of the event type whose fields receive trigger methods.
pub open spec fn event_ty() -> Seq<char> {
    "Event"@
}

/// The prefix of every generated trigger-method name.
pub open spec fn trigger_prefix() -> Seq<char> {
    "on_"@
}

/// Whether a field whose type is named `ty` receives a trigger
/// method.
pub open spec fn spec_is_event_type(ty: Seq<char>) -> bool {
    ty == event_ty()
}

/// The trigger-method names owed to `fields`: one per event-typed field,
/// in field order, each the trigger prefix followed by the field's name.
pub open spec fn trigger_names(fields: Seq<FieldInfo>) -> Seq<Seq<char>> {
    fields.filter(|f: FieldInfo| spec_is_event_type(f.ty@)).map_values(
        |f: FieldInfo| trigger_prefix() + f.name@,
    )
}

/// Whether `ty` names the event type.
pub fn is_event_type(ty: &String) -> (r: bool)
    ensures
        r == spec_is_event_type(ty@),
{
    let event_name: String = String::from_str("Event");
    *ty == event_name
}

/// The trigger-method names for a record with fields `fields`: one per
/// event-typed field, in field order; other fields receive none. An
/// input that is not a structured record type (`is_struct` false) is
/// rejected whatever its fields.
pub fn trigger_method_names(is_struct: bool, fields: &Vec<FieldInfo>) -> (r: Result<
    Vec<String>,
    DeriveError,
>)
    ensures
        (r is Ok) <==> is_struct,
        match r {
            Ok(names) => names.deep_view() == trigger_names(fields@),
            Err(e) => e == DeriveError::NotAStruct,
        },
{
    if !is_struct {
        return Err(DeriveError::NotAStruct);
    }
    let mut names: Vec<String> = Vec::new();
    let n = fields.len();
    for i in 0..n
        invariant
            n == fields@.len(),
            names.deep_view() == trigger_names(fields@.take(i as int)),
    {
        let f = &fields[i];
        if is_event_type(&f.ty) {
            let mut name = String::from_str("on_");
            name.append(f.name.as_str());
            names.push(name);
        }
        proof {
            lemma_trigger_names_step(fields@, i as int);
            assert(names.deep_view() =~= trigger_names(fields@.take(i + 1)));
        }
    }
    proof {
        assert(fields@.take(n as int) =~= fields@);
    }
    Ok(names)
}

/// One field extends the generated names by one entry when its type is
/// the event type, and by none otherwise.
proof fn lemma_trigger_names_step(fields: Seq<FieldInfo>, i: int)
    requires
        0 <= i < fields.len(),
    ensures
        spec_is_event_type(fields[i].ty@) ==> trigger_names(fields.take(i + 1))
            == trigger_names(fields.take(i)).push(trigger_prefix() + fields[i].name@),
        !spec_is_event_type(fields[i].ty@) ==> trigger_names(fields.take(i + 1))
            == trigger_names(fields.take(i)),
{
    reveal(Seq::filter);
    let pred = |f: FieldInfo| spec_is_event_type(f.ty@);
    let rename = |f: FieldInfo| trigger_prefix() + f.name@;
    assert(fields.take(i + 1) =~= fields.take(i).push(fields[i]));
    assert(fields.take(i).push(fields[i]).drop_last() =~= fields.take(i));
    assert(fields.take(i + 1).filter(pred) == if pred(fields[i]) {
        fields.take(i).filter(pred).push(fields[i])
    } else {
        fields.take(i).filter(pred)
    });
    if pred(fields[i]) {
        assert(fields.take(i).filter(pred).push(fields[i]).map_values(rename)
            =~= fields.take(i).filter(pred).map_values(rename).push(rename(fields[i])));
    }
}

} // verus!
