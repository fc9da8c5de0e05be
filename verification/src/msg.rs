//! The shape of one inbound wire message, reduced to the plain values the
//! protocol reads out of the decoded JSON object.

use vstd::prelude::*;

verus! {

/// What one field of the decoded JSON object holds, as far as the protocol
/// cares: a string, an integer that fits in `i64`, JSON null, or anything
/// else. A missing field is read as [`FieldVal::Null`], exactly as indexing
/// a JSON object with a missing key yields null.
pub enum FieldVal {
    Null,
    Str(String),
    Int(i64),
    Other,
}

/// The mathematical value of a [`FieldVal`].
pub enum FieldView {
    Null,
    Str(Seq<char>),
    Int(int),
    Other,
}

impl View for FieldVal {
    type V = FieldView;

    open spec fn view(&self) -> FieldView {
        match self {
            FieldVal::Null => FieldView::Null,
            FieldVal::Str(s) => FieldView::Str(s@),
            FieldVal::Int(i) => FieldView::Int(*i as int),
            FieldVal::Other => FieldView::Other,
        }
    }
}

/// One inbound wire message, reduced to the five fields the protocol ever
/// reads. Fields that the message does not carry are [`FieldVal::Null`].
pub struct RawMsg {
    pub type_field: FieldVal,
    pub id_field: FieldVal,
    pub what_field: FieldVal,
    pub text_field: FieldVal,
    pub command_field: FieldVal,
}

/// The mathematical value of a [`RawMsg`].
pub struct MsgView {
    pub type_field: FieldView,
    pub id_field: FieldView,
    pub what_field: FieldView,
    pub text_field: FieldView,
    pub command_field: FieldView,
}

impl View for RawMsg {
    type V = MsgView;

    open spec fn view(&self) -> MsgView {
        MsgView {
            type_field: self.type_field@,
            id_field: self.id_field@,
            what_field: self.what_field@,
            text_field: self.text_field@,
            command_field: self.command_field@,
        }
    }
}

} // verus!
