//! The protocol client: conversation state, the handler capability
//! interface, and the dispatch of decoded inbound messages with at-most-once,
//! in-order delivery of ordered events.

use vstd::prelude::*;
use crate::errors::{AlmondError, ProtocolViolation};
use crate::msg::{FieldVal, FieldView, MsgView, RawMsg};
use crate::textcmp::str_eq;

verus! {

/// The capability interface the presentation layer implements: receive a
/// text message, receive an echoed command, and be told which special input
/// is expected next (or that none is).
pub trait MessageHandler {
    fn on_new_text_message(&mut self, msg: &str);

    fn on_new_command(&mut self, msg: &str);

    fn set_expected(&mut self, expected: Option<&str>);
}

/// One handler invocation that a dispatched message calls for.
pub enum Action {
    /// Deliver a new text message.
    Text(String),
    /// Deliver a new echoed command.
    Command(String),
    /// Announce the kind of special input the server expects next.
    SetExpected(String),
    /// Announce that no special input is expected.
    ClearExpected,
}

/// The mathematical value of an [`Action`].
pub enum ActionView {
    Text(Seq<char>),
    Command(Seq<char>),
    SetExpected(Seq<char>),
    ClearExpected,
}

impl View for Action {
    type V = ActionView;

    open spec fn view(&self) -> ActionView {
        match self {
            Action::Text(s) => ActionView::Text(s@),
            Action::Command(s) => ActionView::Command(s@),
            Action::SetExpected(s) => ActionView::SetExpected(s@),
            Action::ClearExpected => ActionView::ClearExpected,
        }
    }
}

/// The conversation state a client carries, as mathematical values.
pub struct ClientView {
    pub conversation_id: Option<Seq<char>>,
    pub last_message_id: int,
    pub closed: bool,
}

/// How a dispatched message ends: a handler invocation, silence (an
/// identity assignment, a dropped duplicate, or an unrecognized ordered
/// event), or a protocol violation.
pub enum StepRes {
    Acted(ActionView),
    Silent,
    Failed(ProtocolViolation),
}

/// The sentinel below every valid ordered-event id.
pub open spec fn id_floor() -> int {
    -1
}

/// Dispatch of an identity-assignment message: a string `id` field is
/// captured as the conversation id; anything else is a violation.
pub open spec fn spec_step_id(c: ClientView, m: MsgView) -> (ClientView, StepRes) {
    match m.id_field {
        FieldView::Str(s) => (
            ClientView { conversation_id: Some(s), ..c },
            StepRes::Silent,
        ),
        _ => (c, StepRes::Failed(ProtocolViolation::MissingConversationId)),
    }
}

/// Dispatch of an `askSpecial` message: null clears the expectation, a
/// string sets it, anything else is a violation. Never deduplicated.
pub open spec fn spec_step_ask(c: ClientView, m: MsgView) -> (ClientView, StepRes) {
    match m.what_field {
        FieldView::Null => (c, StepRes::Acted(ActionView::ClearExpected)),
        FieldView::Str(s) => (c, StepRes::Acted(ActionView::SetExpected(s))),
        _ => (c, StepRes::Failed(ProtocolViolation::InvalidAskSpecialWhat)),
    }
}

/// Dispatch of an ordered event (any type other than `id` and `askSpecial`):
/// an integer id is required; an id at or below the last delivered one is
/// dropped silently; a fresh id advances the watermark first, and only then
/// is the payload examined, so a malformed payload still advances it.
pub open spec fn spec_step_ordered(c: ClientView, m: MsgView, t: Seq<char>) -> (ClientView, StepRes) {
    match m.id_field {
        FieldView::Int(i) => if i <= c.last_message_id {
            (c, StepRes::Silent)
        } else {
            let c2 = ClientView { last_message_id: i, ..c };
            if t == "text"@ {
                match m.text_field {
                    FieldView::Str(s) => (c2, StepRes::Acted(ActionView::Text(s))),
                    _ => (c2, StepRes::Failed(ProtocolViolation::InvalidTextMessage)),
                }
            } else if t == "command"@ {
                match m.command_field {
                    FieldView::Str(s) => (c2, StepRes::Acted(ActionView::Command(s))),
                    _ => (c2, StepRes::Failed(ProtocolViolation::InvalidCommandMessage)),
                }
            } else {
                (c2, StepRes::Silent)
            }
        },
        _ => (c, StepRes::Failed(ProtocolViolation::InvalidMessageId)),
    }
}

/// Dispatch of one decoded inbound message, the protocol's core algorithm:
/// what the new conversation state is and what the handler is told.
pub open spec fn spec_step(c: ClientView, m: MsgView) -> (ClientView, StepRes) {
    match m.type_field {
        FieldView::Str(t) => if t == "id"@ {
            spec_step_id(c, m)
        } else if t == "askSpecial"@ {
            spec_step_ask(c, m)
        } else {
            spec_step_ordered(c, m, t)
        },
        _ => (c, StepRes::Failed(ProtocolViolation::MissingType)),
    }
}

/// The ordered-event id a dispatched message delivers to the handler, if
/// any: only fresh `text` and `command` events reach it.
pub open spec fn step_delivered_id(c: ClientView, m: MsgView) -> Option<int> {
    let (c2, res) = spec_step(c, m);
    match res {
        StepRes::Acted(ActionView::Text(_)) => Some(c2.last_message_id),
        StepRes::Acted(ActionView::Command(_)) => Some(c2.last_message_id),
        _ => None,
    }
}

/// A sequence of ids in strictly increasing order.
pub open spec fn strictly_increasing(s: Seq<int>) -> bool {
    forall|i: int, j: int| 0 <= i < j < s.len() ==> s[i] < s[j]
}

/// The protocol client: the conversation state shared between send
/// operations and the background receive task, and the handler it delivers
/// decoded events to. The ghost `delivered_ids` records, in order, the id of
/// every ordered event handed to the handler.
pub struct AlmondClient<H: MessageHandler> {
    pub handler: H,
    pub conversation_id: Option<String>,
    pub last_message_id: i64,
    pub closed: bool,
    pub delivered_ids: Ghost<Seq<int>>,
}

impl<H: MessageHandler> AlmondClient<H> {
    /// The conversation state as mathematical values.
    pub open spec fn cview(&self) -> ClientView {
        ClientView {
            conversation_id: match &self.conversation_id {
                Some(s) => Some(s@),
                None => None,
            },
            last_message_id: self.last_message_id as int,
            closed: self.closed,
        }
    }

    /// Well-formedness: the delivered ids grow strictly and never pass the
    /// watermark.
    pub open spec fn wf(&self) -> bool {
        &&& strictly_increasing(self.delivered_ids@)
        &&& forall|k: int|
            0 <= k < self.delivered_ids@.len() ==> self.delivered_ids@[k]
                <= self.last_message_id as int
    }

    /// A fresh client: no conversation id yet, the id watermark at the
    /// sentinel, the outbound side open, nothing delivered.
    pub fn new(handler: H) -> (c: AlmondClient<H>)
        ensures
            c.handler == handler,
            c.conversation_id is None,
            c.last_message_id as int == id_floor(),
            !c.closed,
            c.delivered_ids@ == Seq::<int>::empty(),
            c.wf(),
    {
        AlmondClient {
            handler,
            conversation_id: None,
            last_message_id: -1,
            closed: false,
            delivered_ids: Ghost(Seq::empty()),
        }
    }

    /// Dispatches one decoded message against the conversation state and
    /// says which handler invocation it calls for, exactly as
    /// [`spec_step`] describes; the handler itself is not touched.
    pub fn step(&mut self, msg: &RawMsg) -> (r: Result<Option<Action>, AlmondError>)
        ensures
            final(self).handler == old(self).handler,
            final(self).delivered_ids == old(self).delivered_ids,
            ({
                let (c2, res) = spec_step(old(self).cview(), msg@);
                &&& final(self).cview() == c2
                &&& match res {
                    StepRes::Acted(a) => r matches Ok(Some(act)) && act@ == a,
                    StepRes::Silent => r matches Ok(None),
                    StepRes::Failed(v) => r matches Err(AlmondError::ProtocolError(w)) && w == v,
                }
            }),
    {
        match &msg.type_field {
            FieldVal::Str(t) => {
                if str_eq(t.as_str(), "id") {
                    match &msg.id_field {
                        FieldVal::Str(s) => {
                            self.conversation_id = Some(s.clone());
                            Ok(None)
                        },
                        _ => Err(
                            AlmondError::ProtocolError(ProtocolViolation::MissingConversationId),
                        ),
                    }
                } else if str_eq(t.as_str(), "askSpecial") {
                    match &msg.what_field {
                        FieldVal::Null => Ok(Some(Action::ClearExpected)),
                        FieldVal::Str(s) => Ok(Some(Action::SetExpected(s.clone()))),
                        _ => Err(
                            AlmondError::ProtocolError(ProtocolViolation::InvalidAskSpecialWhat),
                        ),
                    }
                } else {
                    match &msg.id_field {
                        FieldVal::Int(i) => {
                            if *i <= self.last_message_id {
                                Ok(None)
                            } else {
                                self.last_message_id = *i;
                                if str_eq(t.as_str(), "text") {
                                    match &msg.text_field {
                                        FieldVal::Str(s) => Ok(Some(Action::Text(s.clone()))),
                                        _ => Err(
                                            AlmondError::ProtocolError(
                                                ProtocolViolation::InvalidTextMessage,
                                            ),
                                        ),
                                    }
                                } else if str_eq(t.as_str(), "command") {
                                    match &msg.command_field {
                                        FieldVal::Str(s) => Ok(Some(Action::Command(s.clone()))),
                                        _ => Err(
                                            AlmondError::ProtocolError(
                                                ProtocolViolation::InvalidCommandMessage,
                                            ),
                                        ),
                                    }
                                } else {
                                    Ok(None)
                                }
                            }
                        },
                        _ => Err(AlmondError::ProtocolError(ProtocolViolation::InvalidMessageId)),
                    }
                }
            },
            _ => Err(AlmondError::ProtocolError(ProtocolViolation::MissingType)),
        }
    }

    /// Performs one handler invocation; the conversation state is untouched.
    fn apply(&mut self, action: &Action)
        ensures
            final(self).conversation_id == old(self).conversation_id,
            final(self).last_message_id == old(self).last_message_id,
            final(self).closed == old(self).closed,
            final(self).delivered_ids == old(self).delivered_ids,
    {
        match action {
            Action::Text(s) => self.handler.on_new_text_message(s.as_str()),
            Action::Command(s) => self.handler.on_new_command(s.as_str()),
            Action::SetExpected(s) => self.handler.set_expected(Some(s.as_str())),
            Action::ClearExpected => self.handler.set_expected(None),
        }
    }

    /// Dispatches one decoded message and performs the handler invocation it
    /// calls for: the conversation state moves exactly as [`spec_step`]
    /// describes, the result reports exactly its outcome, and the record of
    /// delivered ordered-event ids grows by exactly the id [`step_delivered_id`]
    /// names, if any. Well-formedness is preserved.
    pub fn handle_decoded(&mut self, msg: &RawMsg) -> (r: Result<(), AlmondError>)
        ensures
            final(self).cview() == spec_step(old(self).cview(), msg@).0,
            (match spec_step(old(self).cview(), msg@).1 {
                StepRes::Failed(v) => r matches Err(AlmondError::ProtocolError(w)) && w == v,
                _ => r is Ok,
            }),
            final(self).delivered_ids@ == (match step_delivered_id(old(self).cview(), msg@) {
                Some(i) => old(self).delivered_ids@.push(i),
                None => old(self).delivered_ids@,
            }),
            (!(spec_step(old(self).cview(), msg@).1 is Acted) ==> final(self).handler == old(
                self,
            ).handler),
            old(self).wf() ==> final(self).wf(),
    {
        proof {
            lemma_step_bounds(old(self).cview(), msg@);
        }
        let r = self.step(msg);
        match r {
            Ok(Some(action)) => {
                proof {
                    if step_delivered_id(old(self).cview(), msg@) is Some {
                        let i = step_delivered_id(old(self).cview(), msg@)->0;
                        if old(self).wf() {
                            lemma_push_strictly_increasing(old(self).delivered_ids@, i);
                        }
                    }
                }
                match &action {
                    Action::Text(_) => {
                        self.delivered_ids = Ghost(
                            self.delivered_ids@.push(self.last_message_id as int),
                        );
                    },
                    Action::Command(_) => {
                        self.delivered_ids = Ghost(
                            self.delivered_ids@.push(self.last_message_id as int),
                        );
                    },
                    _ => {},
                }
                self.apply(&action);
                Ok(())
            },
            Ok(None) => Ok(()),
            Err(e) => Err(e),
        }
    }

    /// Marks the outbound side closed and says whether it still has to be
    /// shut at the transport: only the first call does. Closing again is a
    /// no-op, so closing is idempotent.
    pub fn close(&mut self) -> (r: bool)
        ensures
            r == !old(self).closed,
            final(self).cview() == spec_close(old(self).cview()),
            final(self).handler == old(self).handler,
            final(self).delivered_ids == old(self).delivered_ids,
    {
        let first = !self.closed;
        self.closed = true;
        first
    }

    /// Handles one inbound text frame. The text decodes to [`decoded_msg`]:
    /// to nothing — a fatal decode error, reported with the client unchanged
    /// — or to one message, which is dispatched exactly as [`spec_step`]
    /// describes, with the delivery record growing by exactly the id
    /// [`step_delivered_id`] names and the handler untouched unless the
    /// dispatch delivers. Whatever the frame held, the watermark never goes
    /// down and the closed mark stands.
    pub fn handle_server_message(&mut self, text: &str) -> (r: Result<(), AlmondError>)
        ensures
            (match crate::jsonio::decoded_msg(text@) {
                None => r matches Err(AlmondError::JSONError(_)) && *final(self) == *old(self),
                Some(m) => {
                    &&& final(self).cview() == spec_step(old(self).cview(), m).0
                    &&& (match spec_step(old(self).cview(), m).1 {
                        StepRes::Failed(v) => r matches Err(AlmondError::ProtocolError(w)) && w
                            == v,
                        _ => r is Ok,
                    })
                    &&& final(self).delivered_ids@ == (match step_delivered_id(
                        old(self).cview(),
                        m,
                    ) {
                        Some(i) => old(self).delivered_ids@.push(i),
                        None => old(self).delivered_ids@,
                    })
                    &&& (!(spec_step(old(self).cview(), m).1 is Acted) ==> final(self).handler
                        == old(self).handler)
                },
            }),
            old(self).last_message_id <= final(self).last_message_id,
            final(self).closed == old(self).closed,
            old(self).delivered_ids@.is_prefix_of(final(self).delivered_ids@),
            old(self).wf() ==> final(self).wf(),
    {
        match crate::jsonio::decode_frame(text) {
            Result::Err(e) => Err(AlmondError::JSONError(e)),
            Result::Ok(msg) => {
                proof {
                    lemma_step_bounds(self.cview(), msg@);
                }
                let r = self.handle_decoded(&msg);
                proof {
                    assert(old(self).delivered_ids@.is_prefix_of(self.delivered_ids@)) by {
                        let d = old(self).delivered_ids@;
                        if self.delivered_ids@ != d {
                            assert(d =~= self.delivered_ids@.subrange(0, d.len() as int));
                        }
                    }
                }
                r
            },
        }
    }
}

/// What closing does to the conversation state: the outbound side is marked
/// closed and nothing else moves.
pub open spec fn spec_close(c: ClientView) -> ClientView {
    ClientView { closed: true, ..c }
}

/// A dispatched message never lowers the watermark, never touches the closed
/// mark, and delivers an ordered-event id only if it is fresh, in which case
/// the id is the new watermark.
pub proof fn lemma_step_bounds(c: ClientView, m: MsgView)
    ensures
        c.last_message_id <= spec_step(c, m).0.last_message_id,
        spec_step(c, m).0.closed == c.closed,
        step_delivered_id(c, m) matches Some(i) ==> i > c.last_message_id && i == spec_step(
            c,
            m,
        ).0.last_message_id,
{
}

/// Appending an id above everything a strictly increasing sequence holds
/// keeps it strictly increasing.
pub proof fn lemma_push_strictly_increasing(s: Seq<int>, i: int)
    requires
        strictly_increasing(s),
        forall|k: int| 0 <= k < s.len() ==> s[k] < i,
    ensures
        strictly_increasing(s.push(i)),
{
}

} // verus!
