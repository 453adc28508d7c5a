//! Conversation messages: plain tagged data, one variant per role.

use vstd::prelude::*;

verus! {

/// One tool invocation requested by an assistant message.
#[derive(Debug, PartialEq, Eq, Hash)]
pub struct ToolCall {
    pub id: Option<String>,
    pub tool_type: Option<String>,
    pub function_name: Option<String>,
    pub arguments: Option<String>,
}

/// One entry of a conversation, tagged by the role that produced it.
/// Every field is optional: a message may be identity-only, for example
/// to reference a tool-call id without any text.
#[derive(Debug, PartialEq, Eq, Hash)]
pub enum Message {
    SystemMessage {
        content: Option<String>,
        name: Option<String>,
        role: Option<String>,
        tool_call_id: Option<String>,
    },
    UserMessage {
        content: Option<String>,
        name: Option<String>,
        role: Option<String>,
        tool_call_id: Option<String>,
    },
    AssistantMessage {
        content: Option<String>,
        name: Option<String>,
        role: Option<String>,
        tool_call_id: Option<String>,
        tool_calls: Option<Vec<ToolCall>>,
    },
    ToolMessage {
        content: Option<String>,
        name: Option<String>,
        role: Option<String>,
        tool_call_id: Option<String>,
    },
}

/// The mathematical value of a [`ToolCall`]: each text field as a
/// character sequence.
pub ghost struct ToolCallView {
    pub id: Option<Seq<char>>,
    pub tool_type: Option<Seq<char>>,
    pub function_name: Option<Seq<char>>,
    pub arguments: Option<Seq<char>>,
}

/// The mathematical value of a [`Message`].
pub ghost enum MessageView {
    System {
        content: Option<Seq<char>>,
        name: Option<Seq<char>>,
        role: Option<Seq<char>>,
        tool_call_id: Option<Seq<char>>,
    },
    User {
        content: Option<Seq<char>>,
        name: Option<Seq<char>>,
        role: Option<Seq<char>>,
        tool_call_id: Option<Seq<char>>,
    },
    Assistant {
        content: Option<Seq<char>>,
        name: Option<Seq<char>>,
        role: Option<Seq<char>>,
        tool_call_id: Option<Seq<char>>,
        tool_calls: Option<Seq<ToolCallView>>,
    },
    Tool {
        content: Option<Seq<char>>,
        name: Option<Seq<char>>,
        role: Option<Seq<char>>,
        tool_call_id: Option<Seq<char>>,
    },
}

impl DeepView for ToolCall {
    type V = ToolCallView;

    open spec fn deep_view(&self) -> ToolCallView {
        ToolCallView {
            id: self.id.deep_view(),
            tool_type: self.tool_type.deep_view(),
            function_name: self.function_name.deep_view(),
            arguments: self.arguments.deep_view(),
        }
    }
}

impl DeepView for Message {
    type V = MessageView;

    open spec fn deep_view(&self) -> MessageView {
        match self {
            Message::SystemMessage { content, name, role, tool_call_id } => MessageView::System {
                content: content.deep_view(),
                name: name.deep_view(),
                role: role.deep_view(),
                tool_call_id: tool_call_id.deep_view(),
            },
            Message::UserMessage { content, name, role, tool_call_id } => MessageView::User {
                content: content.deep_view(),
                name: name.deep_view(),
                role: role.deep_view(),
                tool_call_id: tool_call_id.deep_view(),
            },
            Message::AssistantMessage {
                content,
                name,
                role,
                tool_call_id,
                tool_calls,
            } => MessageView::Assistant {
                content: content.deep_view(),
                name: name.deep_view(),
                role: role.deep_view(),
                tool_call_id: tool_call_id.deep_view(),
                tool_calls: tool_calls.deep_view(),
            },
            Message::ToolMessage { content, name, role, tool_call_id } => MessageView::Tool {
                content: content.deep_view(),
                name: name.deep_view(),
                role: role.deep_view(),
                tool_call_id: tool_call_id.deep_view(),
            },
        }
    }
}

fn clone_text_field(s: &Option<String>) -> (res: Option<String>)
    ensures
        res == *s,
{
    match s {
        Some(v) => Some(v.clone()),
        None => None,
    }
}

impl Clone for ToolCall {
    fn clone(&self) -> (res: Self)
        ensures
            res == *self,
    {
        ToolCall {
            id: clone_text_field(&self.id),
            tool_type: clone_text_field(&self.tool_type),
            function_name: clone_text_field(&self.function_name),
            arguments: clone_text_field(&self.arguments),
        }
    }
}

fn clone_tool_calls(calls: &Option<Vec<ToolCall>>) -> (res: Option<Vec<ToolCall>>)
    ensures
        res.deep_view() == calls.deep_view(),
{
    match calls {
        Some(v) => {
            let copy = v.clone();
            proof {
                assert(copy.deep_view() =~= v.deep_view());
            }
            Some(copy)
        },
        None => None,
    }
}

impl Clone for Message {
    /// The copy has the same mathematical value as the original.
    fn clone(&self) -> (res: Self)
        ensures
            res.deep_view() == self.deep_view(),
    {
        match self {
            Message::SystemMessage { content, name, role, tool_call_id } => {
                Message::SystemMessage {
                    content: clone_text_field(content),
                    name: clone_text_field(name),
                    role: clone_text_field(role),
                    tool_call_id: clone_text_field(tool_call_id),
                }
            },
            Message::UserMessage { content, name, role, tool_call_id } => {
                Message::UserMessage {
                    content: clone_text_field(content),
                    name: clone_text_field(name),
                    role: clone_text_field(role),
                    tool_call_id: clone_text_field(tool_call_id),
                }
            },
            Message::AssistantMessage { content, name, role, tool_call_id, tool_calls } => {
                Message::AssistantMessage {
                    content: clone_text_field(content),
                    name: clone_text_field(name),
                    role: clone_text_field(role),
                    tool_call_id: clone_text_field(tool_call_id),
                    tool_calls: clone_tool_calls(tool_calls),
                }
            },
            Message::ToolMessage { content, name, role, tool_call_id } => {
                Message::ToolMessage {
                    content: clone_text_field(content),
                    name: clone_text_field(name),
                    role: clone_text_field(role),
                    tool_call_id: clone_text_field(tool_call_id),
                }
            },
        }
    }
}

} // verus!
