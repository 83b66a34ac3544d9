//! The reply logic of the greeter service under test: a stateless
//! responder with a unary shape and a server-streaming shape. The
//! transport hands the request's `name` field in and sends the returned
//! messages out; the streaming shape's per-message delay is the
//! transport's affair.

use vstd::prelude::*;
use vstd::string::StringExecFns;

verus! {

/// The reply of the unary call for a request carrying `name`.
pub open spec fn hello_message_of(name: Seq<char>) -> Seq<char> {
    "Hello "@ + name + "!"@
}

/// The `i`-th (1-based) reply of the streaming call for a request
/// carrying `name`.
pub open spec fn stream_message_of(name: Seq<char>, i: int) -> Seq<char>
    recommends
        1 <= i <= 3,
{
    "Hello, "@ + name + (if i == 1 {
        "! (1/3)"@
    } else if i == 2 {
        "! (2/3)"@
    } else {
        "! (3/3)"@
    })
}

/// The stateless greeter: echoes a greeting built from the request's name.
pub struct MyGreeter {}

impl MyGreeter {
    /// A greeter instance; it carries no state.
    pub fn new() -> (g: MyGreeter)
        ensures
            true,
    {
        MyGreeter {  }
    }

    /// The unary call's single reply message.
    pub fn say_hello(&self, name: &str) -> (reply: String)
        ensures
            reply@ == hello_message_of(name@),
    {
        let mut reply: String = "Hello ".to_owned();
        reply.append(name);
        reply.append("!");
        reply
    }

    /// The streaming call's replies: exactly three messages, numbered
    /// one to three, each greeting the request's name. The transport
    /// emits them in order with its per-message delay and closes the
    /// stream after the last, so a client that drains the stream reads
    /// all three.
    pub fn say_hello_stream(&self, name: &str) -> (msgs: Vec<String>)
        ensures
            msgs@.len() == 3,
            forall|i: int| 0 <= i < 3 ==> #[trigger] msgs@[i]@ == stream_message_of(
                name@,
                i + 1,
            ),
    {
        let mut msgs: Vec<String> = Vec::new();
        let mut m1: String = "Hello, ".to_owned();
        m1.append(name);
        m1.append("! (1/3)");
        msgs.push(m1);
        let mut m2: String = "Hello, ".to_owned();
        m2.append(name);
        m2.append("! (2/3)");
        msgs.push(m2);
        let mut m3: String = "Hello, ".to_owned();
        m3.append(name);
        m3.append("! (3/3)");
        msgs.push(m3);
        msgs
    }
}

} // verus!
