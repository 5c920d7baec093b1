//! The message that shows the user how far a long command has come.

use vstd::prelude::*;
use vstd::string::*;
use crate::text::MessageText;
use crate::util::handle::{Response, ResponseKind, ResponseView};

verus! {

/// A progress message: a title, the steps that are done, and the step that
/// is under way.
#[derive(Debug, Clone)]
pub struct ProgMsg {
    title: String,
    delete_on_drop: bool,
    history: Vec<String>,
    msg_id: Option<i32>,
    last_unsaved: Option<String>,
    is_mapped: bool,
}

/// Mathematical value of a [`ProgMsg`].
pub struct ProgMsgView {
    pub title: Seq<char>,
    /// Whether the message is removed when the command is over.
    pub delete_on_drop: bool,
    /// The steps that are done and stay in the list.
    pub history: Seq<Seq<char>>,
    /// The message on the chat platform, once it has been sent.
    pub msg_id: Option<i32>,
    /// The step under way, if it is to leave the list when the next begins.
    pub last_unsaved: Option<Seq<char>>,
    /// Whether the command's answer was written into the message.
    pub is_mapped: bool,
}

/// What is to be done with a text on the chat platform.
#[derive(Debug, Clone, Copy, PartialEq, Eq, Structural)]
pub enum Show {
    /// Send it as a reply to the command.
    Send,
    /// Write it into the message with this id.
    Edit(i32),
}

/// What is to be done with the progress message when the command is over.
#[derive(Debug, Clone, PartialEq, Eq)]
pub enum Cleanup {
    Nothing,
    /// Remove the message with this id.
    Delete(i32),
    /// Write this text into the message with this id.
    Edit(i32, String),
}

/// The lines of the steps that are done.
pub open spec fn done_lines(history: Seq<Seq<char>>) -> Seq<char>
    decreases history.len(),
{
    if history.len() == 0 {
        Seq::empty()
    } else {
        done_lines(history.drop_last()) + "- "@ + history.last() + " done\n"@
    }
}

/// The text of a progress message: the title, an empty line, a line for
/// each step that is done, and a line for the step under way.
pub open spec fn format_of(
    title: Seq<char>,
    history: Seq<Seq<char>>,
    current: Option<Seq<char>>,
) -> Seq<char> {
    title + "\n\n"@ + done_lines(history) + match current {
        Some(current) => "- "@ + current,
        None => Seq::empty(),
    }
}

impl ProgMsgView {
    /// The list of steps once a new step begins: the step that was under way
    /// joins it if the new step stays in the list.
    pub open spec fn settled(self, save_to_history: bool) -> Seq<Seq<char>> {
        match self.last_unsaved {
            Some(last) if save_to_history => self.history.push(last),
            _ => self.history,
        }
    }

    /// The message after a new step begins.
    pub open spec fn update(self, status: Seq<char>, save_to_history: bool) -> ProgMsgView {
        ProgMsgView {
            history: if save_to_history {
                self.settled(save_to_history).push(status)
            } else {
                self.history
            },
            last_unsaved: if save_to_history {
                None
            } else {
                Some(status)
            },
            is_mapped: false,
            ..self
        }
    }
}

impl View for ProgMsg {
    type V = ProgMsgView;

    closed spec fn view(&self) -> ProgMsgView {
        ProgMsgView {
            title: self.title@,
            delete_on_drop: self.delete_on_drop,
            history: Seq::new(self.history@.len(), |i: int| self.history@[i]@),
            msg_id: self.msg_id,
            last_unsaved: match self.last_unsaved {
                Some(s) => Some(s@),
                None => None,
            },
            is_mapped: self.is_mapped,
        }
    }
}

impl ProgMsg {
    /// A progress message with the given title, not yet sent.
    pub fn new(title: &str) -> (r: ProgMsg)
        ensures
            r@ == (ProgMsgView {
                title: title@,
                delete_on_drop: true,
                history: Seq::empty(),
                msg_id: None,
                last_unsaved: None,
                is_mapped: false,
            }),
    {
        let r = ProgMsg {
            title: title.to_owned(),
            delete_on_drop: true,
            history: Vec::new(),
            msg_id: None,
            last_unsaved: None,
            is_mapped: false,
        };
        assert(r@.history =~= Seq::empty());
        r
    }

    /// Says whether the message is removed when the command is over.
    pub fn set_delete_on_drop(&mut self, enable: bool)
        ensures
            final(self)@ == (ProgMsgView { delete_on_drop: enable, ..old(self)@ }),
    {
        self.delete_on_drop = enable;
    }

    /// Begins a new step. The result is the text to show, and whether to
    /// send it or to write it into the message that was sent before.
    pub fn update(&mut self, status: &str, save_to_history: bool) -> (r: (String, Show))
        ensures
            final(self)@ == old(self)@.update(status@, save_to_history),
            r.0@ == format_of(
                old(self)@.title,
                old(self)@.settled(save_to_history),
                Some(status@),
            ),
            r.1 == match old(self)@.msg_id {
                Some(id) => Show::Edit(id),
                None => Show::Send,
            },
    {
        self.is_mapped = false;
        if save_to_history {
            let last = self.last_unsaved.take();
            match last {
                Some(last) => {
                    self.history.push(last);
                },
                None => {},
            }
        }
        proof {
            assert(self@.history =~= old(self)@.settled(save_to_history));
        }
        let text = self.format(Some(status));
        let show = match self.msg_id {
            Some(id) => Show::Edit(id),
            None => Show::Send,
        };
        if save_to_history {
            self.history.push(status.to_owned());
        } else {
            self.last_unsaved = Some(status.to_owned());
        }
        proof {
            assert(self@.history =~= old(self)@.update(status@, save_to_history).history);
        }
        (text, show)
    }

    /// Notes the message as which the progress was sent.
    pub fn sent(&mut self, msg_id: i32)
        ensures
            final(self)@ == (ProgMsgView { msg_id: Some(msg_id), ..old(self)@ }),
    {
        self.msg_id = Some(msg_id);
    }

    /// Takes the command's answer. Where the progress message was sent and
    /// the answer is a reply, the reply's text is to be written into the
    /// progress message, which then stays, and nothing else is answered.
    /// The result is the answer that is left, and the text to write with the
    /// id of the message to write it into.
    pub fn map(&mut self, resp: Response) -> (r: (Response, Option<(i32, MessageText)>))
        ensures
            match (old(self)@.msg_id, resp@) {
                (Some(id), ResponseView::ReplyTo(text)) => {
                    &&& r.0@ == ResponseView::Nothing
                    &&& r.1 matches Some(edit)
                    &&& edit.0 == id
                    &&& edit.1@ == text
                    &&& final(self)@ == (ProgMsgView {
                        is_mapped: true,
                        delete_on_drop: false,
                        ..old(self)@
                    })
                },
                _ => {
                    &&& r.0@ == resp@
                    &&& r.1 is None
                    &&& final(self)@ == (ProgMsgView { is_mapped: true, ..old(self)@ })
                },
            },
    {
        self.is_mapped = true;
        let msg_id = match self.msg_id {
            Some(msg_id) => msg_id,
            None => {
                return (resp, None);
            },
        };
        match resp.kind {
            ResponseKind::ReplyTo(text) => {
                self.delete_on_drop = false;
                (Response::nothing(), Some((msg_id, text)))
            },
            ResponseKind::NewMsg(text) => (Response::new_msg(text), None),
            ResponseKind::Nothing => (Response::nothing(), None),
        }
    }

    /// Takes the command's answer, be it of success or of failure, as
    /// [`ProgMsg::map`] does.
    pub fn map_res(&mut self, resp: Result<Response, Response>) -> (r: (
        Result<Response, Response>,
        Option<(i32, MessageText)>,
    ))
        ensures
            resp is Ok == r.0 is Ok,
            match (
                old(self)@.msg_id,
                match resp {
                    Ok(resp) => resp@,
                    Err(resp) => resp@,
                },
            ) {
                (Some(id), ResponseView::ReplyTo(text)) => {
                    &&& match r.0 {
                        Ok(left) => left@,
                        Err(left) => left@,
                    } == ResponseView::Nothing
                    &&& r.1 matches Some(edit)
                    &&& edit.0 == id
                    &&& edit.1@ == text
                    &&& final(self)@ == (ProgMsgView {
                        is_mapped: true,
                        delete_on_drop: false,
                        ..old(self)@
                    })
                },
                (_, answer) => {
                    &&& match r.0 {
                        Ok(left) => left@,
                        Err(left) => left@,
                    } == answer
                    &&& r.1 is None
                    &&& final(self)@ == (ProgMsgView { is_mapped: true, ..old(self)@ })
                },
            },
    {
        match resp {
            Ok(resp) => {
                let (left, edit) = self.map(resp);
                (Ok(left), edit)
            },
            Err(resp) => {
                let (left, edit) = self.map(resp);
                (Err(left), edit)
            },
        }
    }

    /// Writes the text of the message, with `current` as the step under way.
    pub fn format(&self, current: Option<&str>) -> (r: String)
        ensures
            r@ == format_of(self@.title, self@.history, match current {
                Some(c) => Some(c@),
                None => None,
            }),
    {
        let mut display = self.title.clone();
        display.append("\n\n");
        let ghost head = display@;
        let mut i: usize = 0;
        assert(self@.history.take(0) =~= Seq::<Seq<char>>::empty());
        assert(head + Seq::<char>::empty() =~= head);
        while i < self.history.len()
            invariant
                i <= self.history.len(),
                self@.history.len() == self.history@.len(),
                forall|k: int| 0 <= k < self.history@.len() ==> self@.history[k] == self.history@[k]@,
                display@ == head + done_lines(self@.history.take(i as int)),
            decreases self.history.len() - i,
        {
            proof {
                let upto = self@.history.take(i + 1);
                assert(upto.drop_last() =~= self@.history.take(i as int));
                assert(upto.last() == self.history@[i as int]@);
                assert(head + (done_lines(self@.history.take(i as int)) + "- "@
                    + self.history@[i as int]@ + " done\n"@) =~= head + done_lines(
                    self@.history.take(i as int),
                ) + "- "@ + self.history@[i as int]@ + " done\n"@);
            }
            display.append("- ");
            display.append(self.history[i].as_str());
            display.append(" done\n");
            i += 1;
        }
        assert(self@.history.take(self@.history.len() as int) =~= self@.history);
        match current {
            Some(current) => {
                display.append("- ");
                display.append(current);
                assert(display@ =~= format_of(self@.title, self@.history, Some(current@)));
            },
            None => {
                assert(display@ =~= format_of(self@.title, self@.history, None));
            },
        }
        display
    }

    /// Says what is to be done with the message when the command is over:
    /// it is removed, unless it is to stay; a message that stays and does
    /// not show the command's answer is left with the steps that are done.
    pub fn on_drop(&self) -> (r: Cleanup)
        ensures
            match r {
                Cleanup::Nothing => self@.msg_id is None || (!self@.delete_on_drop
                    && self@.is_mapped),
                Cleanup::Delete(id) => self@.msg_id == Some(id) && self@.delete_on_drop,
                Cleanup::Edit(id, text) => {
                    &&& self@.msg_id == Some(id)
                    &&& !self@.delete_on_drop
                    &&& !self@.is_mapped
                    &&& text@ == format_of(self@.title, self@.history, None)
                },
            },
    {
        match self.msg_id {
            None => Cleanup::Nothing,
            Some(id) => {
                if self.delete_on_drop {
                    Cleanup::Delete(id)
                } else if !self.is_mapped {
                    Cleanup::Edit(id, self.format(None))
                } else {
                    Cleanup::Nothing
                }
            },
        }
    }
}

} // verus!
