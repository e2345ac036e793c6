//! The native side of the callback: from the result object that the managed
//! side hands over to the one line that is printed for it.

use jni::objects::JObject;
use jni::JNIEnv;
use vstd::prelude::*;
use vstd::string::StringExecFns;

use crate::failure::Failure;
use crate::interface::{accessor_method, accessor_signature};
use crate::jvm::{call_method, get_string, into_object, is_null};

verus! {

/// What asking a result object for its message came to.
#[derive(Debug)]
pub enum Reply {
    /// The accessor could not be called, or it threw.
    Refused,
    /// The accessor returned something that is no object.
    NotObject,
    /// The accessor returned the null reference.
    Null,
    /// The accessor returned an object whose text could not be read.
    Unreadable,
    /// The accessor returned this message.
    Message(String),
}

/// The line printed for `message`: the message itself, then one newline.
pub open spec fn line_text(message: Seq<char>) -> Seq<char> {
    message.push('\n')
}

impl Reply {
    /// What the callback makes of a reply: the line to print, or the failure
    /// on which the process is given up before anything is printed.
    pub open spec fn delivery(self) -> Result<Seq<char>, Failure> {
        match self {
            Reply::Refused => Err(Failure::CallAccessor),
            Reply::NotObject => Err(Failure::NullMessage),
            Reply::Null => Err(Failure::NullMessage),
            Reply::Unreadable => Err(Failure::ConvertMessage),
            Reply::Message(message) => Ok(line_text(message@)),
        }
    }

    /// Whether `outcome` is what the callback makes of this reply.
    pub open spec fn delivers(self, outcome: Result<String, Failure>) -> bool {
        match self.delivery() {
            Ok(line) => outcome is Ok && outcome->Ok_0@ == line,
            Err(failure) => outcome == Err::<String, Failure>(failure),
        }
    }
}

/// The text to print for `message`, newline included.
pub fn output_line(message: &str) -> (line: String)
    ensures
        line@ == line_text(message@),
{
    let mut line = String::from_str(message);
    line.append("\n");
    proof {
        reveal_strlit("\n");
    }
    line
}

/// Decides what becomes of a reply: a message is printed as one line, and
/// anything else is fatal, with nothing printed.
pub fn deliver(reply: Reply) -> (outcome: Result<String, Failure>)
    ensures
        reply.delivers(outcome),
{
    match reply {
        Reply::Refused => Err(Failure::CallAccessor),
        Reply::NotObject => Err(Failure::NullMessage),
        Reply::Null => Err(Failure::NullMessage),
        Reply::Unreadable => Err(Failure::ConvertMessage),
        Reply::Message(message) => Ok(output_line(message.as_str())),
    }
}

/// Asks `result` for its message through the accessor.
fn ask(env: &mut JNIEnv<'_>, result: &JObject<'_>) -> Reply {
    let returned = match call_method(env, result, accessor_method(), accessor_signature()) {
        Ok(value) => value,
        Err(_) => {
            return Reply::Refused;
        },
    };
    let object = match into_object(returned) {
        Ok(object) => object,
        Err(_) => {
            return Reply::NotObject;
        },
    };
    if is_null(&object) {
        return Reply::Null;
    }
    match get_string(env, object) {
        Ok(message) => Reply::Message(message),
        Err(_) => Reply::Unreadable,
    }
}

/// Handles one invocation of the native method: asks `result` for its
/// message and returns the line to print for it.
///
/// What the runtime answers is not known here. Whatever it is, the outcome
/// is the one that `deliver` assigns to some reply: a line that ends in its
/// newline, or a failure of the callback.
pub fn receive(env: &mut JNIEnv<'_>, result: &JObject<'_>) -> (outcome: Result<String, Failure>)
    ensures
        exists|reply: Reply| #[trigger] reply.delivers(outcome),
        outcome is Err ==> outcome->Err_0.in_callback(),
        outcome is Ok ==> outcome->Ok_0@.len() > 0 && outcome->Ok_0@.last() == '\n',
{
    let reply = ask(env, result);
    deliver(reply)
}

/// The printed line and the message determine each other: equal messages
/// give equal lines, and different messages give different lines.
pub proof fn lemma_line_determined_by_message(first: Seq<char>, second: Seq<char>)
    ensures
        line_text(first) == line_text(second) <==> first == second,
{
    if line_text(first) == line_text(second) {
        assert(line_text(first).drop_last() =~= first);
        assert(line_text(second).drop_last() =~= second);
    }
}

/// Two deliveries of the same reply do not differ: both fail with the same
/// failure, or both print the same line.
pub proof fn lemma_delivery_is_deterministic(
    reply: Reply,
    first: Result<String, Failure>,
    second: Result<String, Failure>,
)
    requires
        reply.delivers(first),
        reply.delivers(second),
    ensures
        first is Ok <==> second is Ok,
        first is Ok ==> first->Ok_0@ == second->Ok_0@,
        first is Err ==> first->Err_0 == second->Err_0,
{
}

/// A line is printed for a reply exactly when the reply holds a message;
/// a null reply is fatal.
pub proof fn lemma_line_only_for_message(reply: Reply)
    ensures
        reply.delivery() is Ok <==> reply is Message,
        reply is Null ==> reply.delivery() == Err::<Seq<char>, Failure>(Failure::NullMessage),
        reply.delivery() is Err ==> reply.delivery()->Err_0.in_callback(),
{
}

} // verus!
