//! What is sent to the chat completion service, and what is read from its
//! answer.

use vstd::prelude::*;
use vstd::string::StringExecFns;

verus! {

/// One message of a conversation.
#[derive(Debug)]
pub struct Message {
    /// Who speaks: `system` or `user`.
    pub role: String,
    /// What is said.
    pub content: String,
}

impl View for Message {
    type V = (Seq<char>, Seq<char>);

    open spec fn view(&self) -> (Seq<char>, Seq<char>) {
        (self.role@, self.content@)
    }
}

/// The conversation that a prompt opens: the system message first, unless it
/// is empty, then the prompt as the user's message.
pub open spec fn conversation(prompt: Seq<char>, system_message: Seq<char>) -> Seq<
    (Seq<char>, Seq<char>),
> {
    if system_message.len() == 0 {
        seq![("user"@, prompt)]
    } else {
        seq![("system"@, system_message), ("user"@, prompt)]
    }
}

/// The messages of a sequence, each as its role and content.
pub open spec fn views_of(messages: Seq<Message>) -> Seq<(Seq<char>, Seq<char>)> {
    messages.map_values(|m: Message| m@)
}

/// Builds the messages to send for `prompt` under `system_message`.
pub fn chat_messages(prompt: &str, system_message: &str) -> (messages: Vec<Message>)
    ensures
        views_of(messages@) == conversation(prompt@, system_message@),
{
    let mut messages: Vec<Message> = Vec::new();
    if !system_message.is_empty() {
        messages.push(Message { role: "system".to_owned(), content: system_message.to_owned() });
    }
    messages.push(Message { role: "user".to_owned(), content: prompt.to_owned() });
    assert(views_of(messages@) =~= conversation(prompt@, system_message@));
    messages
}

/// The prefix of an authorization header's value.
pub open spec fn bearer_prefix() -> Seq<char> {
    seq!['B', 'e', 'a', 'r', 'e', 'r', ' ']
}

/// The value of the authorization header for `api_key`.
pub fn bearer(api_key: &str) -> (value: String)
    ensures
        value@ == bearer_prefix() + api_key@,
{
    proof {
        reveal_strlit("Bearer ");
    }
    assert("Bearer "@ =~= bearer_prefix());
    let mut value = "Bearer ".to_owned();
    value.append(api_key);
    value
}

/// The reply in an answer: the content of its first choice, if it has one.
pub fn first_reply(choices: &Vec<String>) -> (reply: Option<String>)
    ensures
        choices@.len() == 0 ==> reply.is_none(),
        choices@.len() > 0 ==> reply.is_some() && reply.unwrap()@ == choices@[0]@,
{
    if choices.len() > 0 {
        Some(choices[0].clone())
    } else {
        None
    }
}

} // verus!
