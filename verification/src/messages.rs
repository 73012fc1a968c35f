//! Immutable conversation turns and the well-formedness of a conversation.

use vstd::prelude::*;

verus! {

/// The speaker of a conversation turn.
#[derive(Clone, Copy, PartialEq, Eq, Structural, Debug)]
pub enum Role {
    System,
    User,
    Assistant,
    Tool,
}

/// One immutable conversation turn.  A tool-role message carries the
/// identifier of the invocation request it answers; an assistant-role
/// message that requested a tool call carries the identifier it issued.
pub struct Message {
    pub role: Role,
    pub content: String,
    pub tool_call_id: Option<String>,
}

/// The mathematical value of a `Message`.
pub struct MessageView {
    pub role: Role,
    pub content: Seq<char>,
    pub tool_call_id: Option<Seq<char>>,
}

impl View for Message {
    type V = MessageView;

    open spec fn view(&self) -> MessageView {
        MessageView {
            role: self.role,
            content: self.content@,
            tool_call_id: match self.tool_call_id {
                Option::Some(id) => Option::Some(id@),
                Option::None => Option::None,
            },
        }
    }
}

impl DeepView for Message {
    type V = MessageView;

    open spec fn deep_view(&self) -> MessageView {
        self@
    }
}

impl Clone for Message {
    fn clone(&self) -> (r: Self)
        ensures
            r == *self,
    {
        Message {
            role: self.role,
            content: self.content.clone(),
            tool_call_id: match &self.tool_call_id {
                Option::Some(id) => Option::Some(id.clone()),
                Option::None => Option::None,
            },
        }
    }
}

impl Message {
    /// The system turn that seeds a conversation.
    pub fn system(content: String) -> (m: Message)
        ensures
            m@ == (MessageView { role: Role::System, content: content@, tool_call_id: Option::None }),
    {
        Message { role: Role::System, content, tool_call_id: Option::None }
    }

    /// A caller turn.
    pub fn user(content: String) -> (m: Message)
        ensures
            m@ == (MessageView { role: Role::User, content: content@, tool_call_id: Option::None }),
    {
        Message { role: Role::User, content, tool_call_id: Option::None }
    }

    /// A model turn.
    pub fn assistant(content: String) -> (m: Message)
        ensures
            m@ == (MessageView { role: Role::Assistant, content: content@, tool_call_id: Option::None }),
    {
        Message { role: Role::Assistant, content, tool_call_id: Option::None }
    }

    /// A model turn that requested a tool invocation under `call_id`.
    pub fn assistant_tool_call(content: String, call_id: String) -> (m: Message)
        ensures
            m@ == (MessageView {
                role: Role::Assistant,
                content: content@,
                tool_call_id: Option::Some(call_id@),
            }),
    {
        Message { role: Role::Assistant, content, tool_call_id: Option::Some(call_id) }
    }

    /// A tool outcome turn answering the request identified by `call_id`.
    pub fn tool(content: String, call_id: String) -> (m: Message)
        ensures
            m@ == (MessageView {
                role: Role::Tool,
                content: content@,
                tool_call_id: Option::Some(call_id@),
            }),
    {
        Message { role: Role::Tool, content, tool_call_id: Option::Some(call_id) }
    }
}

/// A system turn may only stand first.
pub open spec fn system_only_first(conv: Seq<MessageView>) -> bool {
    forall|i: int| 0 < i < conv.len() ==> !(#[trigger] conv[i].role is System)
}

/// Every tool-role turn answers an identifier some earlier assistant turn issued.
pub open spec fn tool_ids_paired(conv: Seq<MessageView>) -> bool {
    forall|i: int|
        0 <= i < conv.len() && #[trigger] conv[i].role is Tool ==> {
            &&& conv[i].tool_call_id is Some
            &&& exists|j: int|
                0 <= j < i && #[trigger] conv[j].role is Assistant && conv[j].tool_call_id
                    == conv[i].tool_call_id
        }
}

/// A well-formed conversation: a system turn only first, and every
/// tool-role turn paired with a prior request identifier.
pub open spec fn conversation_wf(conv: Seq<MessageView>) -> bool {
    &&& system_only_first(conv)
    &&& tool_ids_paired(conv)
}

/// Appending a turn that is neither a system nor a tool turn keeps a
/// conversation well-formed.
pub proof fn lemma_push_keeps_wf(conv: Seq<MessageView>, m: MessageView)
    requires
        conversation_wf(conv),
        !(m.role is System),
        !(m.role is Tool),
    ensures
        conversation_wf(conv.push(m)),
{
    let c2 = conv.push(m);
    assert forall|i: int| 0 < i < c2.len() implies !(#[trigger] c2[i].role is System) by {
        if i < conv.len() {
            assert(c2[i] == conv[i]);
        } else {
            assert(c2[i] == m);
        }
    }
    assert forall|i: int| 0 <= i < c2.len() && #[trigger] c2[i].role is Tool implies {
        &&& c2[i].tool_call_id is Some
        &&& exists|j: int|
            0 <= j < i && #[trigger] c2[j].role is Assistant && c2[j].tool_call_id
                == c2[i].tool_call_id
    } by {
        assert(c2[i] == conv[i]);
        let k0 = choose|k0: int|
            0 <= k0 < i && #[trigger] conv[k0].role is Assistant && conv[k0].tool_call_id
                == conv[i].tool_call_id;
        assert(c2[k0] == conv[k0]);
    }
}

/// Appending assistant turns keeps a conversation well-formed.
pub proof fn lemma_append_assistants_keeps_wf(conv: Seq<MessageView>, msgs: Seq<MessageView>)
    requires
        conversation_wf(conv),
        forall|i: int| 0 <= i < msgs.len() ==> (#[trigger] msgs[i]).role is Assistant,
    ensures
        conversation_wf(conv + msgs),
{
    let c2 = conv + msgs;
    assert forall|i: int| 0 < i < c2.len() implies !(#[trigger] c2[i].role is System) by {
        if i < conv.len() {
            assert(c2[i] == conv[i]);
        } else {
            assert(c2[i] == msgs[i - conv.len()]);
        }
    }
    assert forall|i: int| 0 <= i < c2.len() && #[trigger] c2[i].role is Tool implies {
        &&& c2[i].tool_call_id is Some
        &&& exists|j: int|
            0 <= j < i && #[trigger] c2[j].role is Assistant && c2[j].tool_call_id
                == c2[i].tool_call_id
    } by {
        if i >= conv.len() {
            assert(c2[i] == msgs[i - conv.len()]);
        }
        assert(c2[i] == conv[i]);
        let k0 = choose|k0: int|
            0 <= k0 < i && #[trigger] conv[k0].role is Assistant && conv[k0].tool_call_id
                == conv[i].tool_call_id;
        assert(c2[k0] == conv[k0]);
    }
}

/// Appending tool turns keeps a conversation well-formed, provided each
/// answers an identifier some assistant turn on record issued.
pub proof fn lemma_append_tools_keeps_wf(conv: Seq<MessageView>, msgs: Seq<MessageView>)
    requires
        conversation_wf(conv),
        forall|i: int| 0 <= i < msgs.len() ==> (#[trigger] msgs[i]).role is Tool,
        forall|i: int| 0 <= i < msgs.len() ==> (#[trigger] msgs[i]).tool_call_id is Some,
        forall|i: int|
            0 <= i < msgs.len() ==> exists|j: int|
                0 <= j < conv.len() && (#[trigger] conv[j]).role is Assistant
                    && conv[j].tool_call_id == (#[trigger] msgs[i]).tool_call_id,
    ensures
        conversation_wf(conv + msgs),
{
    let c2 = conv + msgs;
    assert forall|i: int| 0 < i < c2.len() implies !(#[trigger] c2[i].role is System) by {
        if i < conv.len() {
            assert(c2[i] == conv[i]);
        } else {
            assert(c2[i] == msgs[i - conv.len()]);
        }
    }
    assert forall|i: int| 0 <= i < c2.len() && #[trigger] c2[i].role is Tool implies {
        &&& c2[i].tool_call_id is Some
        &&& exists|j: int|
            0 <= j < i && #[trigger] c2[j].role is Assistant && c2[j].tool_call_id
                == c2[i].tool_call_id
    } by {
        if i < conv.len() {
            assert(c2[i] == conv[i]);
            let k0 = choose|k0: int|
                0 <= k0 < i && #[trigger] conv[k0].role is Assistant && conv[k0].tool_call_id
                    == conv[i].tool_call_id;
            assert(c2[k0] == conv[k0]);
        } else {
            assert(c2[i] == msgs[i - conv.len()]);
            let k0 = choose|k0: int|
                0 <= k0 < conv.len() && (#[trigger] conv[k0]).role is Assistant
                    && conv[k0].tool_call_id == msgs[i - conv.len()].tool_call_id;
            assert(c2[k0] == conv[k0]);
        }
    }
}

} // verus!
