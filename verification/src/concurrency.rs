//! What concurrent workers say and decide. The functions here are the steps
//! that each thread takes, on plain values; starting threads, sending and
//! locking are left to the caller.

use crate::text::{decimal, push_decimal};
use vstd::prelude::*;
use vstd::string::*;

verus! {

/// A label followed by a number.
pub open spec fn labelled(label: Seq<char>, n: nat) -> Seq<char> {
    label + decimal(n)
}

/// A label followed by a number.
pub fn labelled_text(label: &str, n: u32) -> (line: String)
    ensures
        line@ == labelled(label@, n as nat),
{
    let mut line = String::from_str(label);
    push_decimal(&mut line, n as u128);
    line
}

/// One line for each number from `first` through `last`, each with the
/// label before it.
pub fn counting_lines(label: &str, first: u32, last: u32) -> (lines: Vec<String>)
    requires
        first <= last + 1,
        last < u32::MAX,
    ensures
        lines@.len() == last + 1 - first,
        forall|i: int|
            0 <= i < lines@.len() ==> (#[trigger] lines@[i])@ == labelled(
                label@,
                (first + i) as nat,
            ),
{
    let mut lines: Vec<String> = Vec::new();
    let mut n: u32 = first;
    while n <= last
        invariant
            first <= n <= last + 1,
            last < u32::MAX,
            lines@.len() == n - first,
            forall|i: int|
                0 <= i < lines@.len() ==> (#[trigger] lines@[i])@ == labelled(
                    label@,
                    (first + i) as nat,
                ),
        decreases last + 1 - n,
    {
        lines.push(labelled_text(label, n));
        n = n + 1;
    }
    lines
}

/// What a thread that is started and later joined leaves behind.
pub struct Joined {
    /// The lines of the spawned thread, 1 through 8.
    pub spawned: Vec<String>,
    /// The lines of the main thread, 1 through 4.
    pub main: Vec<String>,
    /// The line that reports what the spawned thread returned.
    pub result: String,
}

/// The lines of a spawned thread and of the main thread that waits for it,
/// and the report of the spawned thread's result. How the lines of the two
/// interleave is up to the scheduler.
pub fn simple_threads_with_join() -> (r: Joined)
    ensures
        r.spawned@.len() == 8,
        forall|i: int|
            0 <= i < 8 ==> (#[trigger] r.spawned@[i])@ == labelled(
                "spawned thread: "@,
                (1 + i) as nat,
            ),
        r.main@.len() == 4,
        forall|i: int|
            0 <= i < 4 ==> (#[trigger] r.main@[i])@ == labelled(
                "*---main thread: "@,
                (1 + i) as nat,
            ),
        r.result@ == "expensive result: "@ + "Hello World!"@,
{
    let spawned = counting_lines("spawned thread: ", 1, 8);
    let main = counting_lines("*---main thread: ", 1, 4);
    let expensive_result = "Hello World!";
    let mut result = String::from_str("expensive result: ");
    result.append(expensive_result);
    Joined { spawned, main, result }
}

/// A thread that outlives the scope it was started in must own what it
/// uses, so it gets a clone. Returns the line of the thread and the line of
/// the owner of the string that was cloned.
pub fn moving_things_into_threads() -> (lines: (String, String))
    ensures
        lines.0@ == "Here's the cloned string: "@ + "*"@,
        lines.1@ == "Here's the original string: "@ + "*"@,
{
    let string = String::from_str("*");
    let string_clone = string.clone();
    let mut from_thread = String::from_str("Here's the cloned string: ");
    from_thread.append(string_clone.as_str());
    let mut from_owner = String::from_str("Here's the original string: ");
    from_owner.append(string.as_str());
    (from_thread, from_owner)
}

/// The label of the messages of one sender.
pub open spec fn sender_label(sender: nat) -> Seq<char> {
    "thread "@ + decimal(sender) + ": "@
}

/// The five messages that a sender puts on the channel.
pub fn channel_messages(sender: u32) -> (messages: Vec<String>)
    ensures
        messages@.len() == 5,
        forall|i: int|
            0 <= i < 5 ==> (#[trigger] messages@[i])@ == labelled(
                sender_label(sender as nat),
                (1 + i) as nat,
            ),
{
    let mut label = String::from_str("thread ");
    push_decimal(&mut label, sender as u128);
    label.append(": ");
    counting_lines(label.as_str(), 1, 5)
}

/// The line that the receiver writes for a message.
pub fn received_line(message: &str) -> (line: String)
    ensures
        line@ == "Message received: "@ + message@,
{
    let mut line = String::from_str("Message received: ");
    line.append(message);
    line
}

/// What two senders put on one channel, and what the receiver writes when
/// it takes the messages of the first and then those of the second. On a
/// real channel the messages of the two mix; each sender's own stay in
/// order.
pub fn channels() -> (lines: Vec<String>)
    ensures
        lines@.len() == 10,
        forall|i: int|
            0 <= i < 5 ==> (#[trigger] lines@[i])@ == "Message received: "@ + labelled(
                sender_label(1),
                (1 + i) as nat,
            ),
        forall|i: int|
            5 <= i < 10 ==> (#[trigger] lines@[i])@ == "Message received: "@ + labelled(
                sender_label(2),
                (i - 4) as nat,
            ),
{
    let first = channel_messages(1);
    let second = channel_messages(2);
    let mut lines: Vec<String> = Vec::new();
    let mut i: usize = 0;
    while i < 5
        invariant
            i <= 5,
            first@.len() == 5,
            lines@.len() == i,
            forall|k: int|
                0 <= k < 5 ==> (#[trigger] first@[k])@ == labelled(sender_label(1), (1 + k) as nat),
            forall|k: int|
                0 <= k < i ==> (#[trigger] lines@[k])@ == "Message received: "@ + labelled(
                    sender_label(1),
                    (1 + k) as nat,
                ),
        decreases 5 - i,
    {
        lines.push(received_line(first[i].as_str()));
        i = i + 1;
    }
    let mut j: usize = 0;
    while j < 5
        invariant
            j <= 5,
            second@.len() == 5,
            lines@.len() == 5 + j,
            forall|k: int|
                0 <= k < 5 ==> (#[trigger] second@[k])@ == labelled(
                    sender_label(2),
                    (1 + k) as nat,
                ),
            forall|k: int|
                0 <= k < 5 ==> (#[trigger] lines@[k])@ == "Message received: "@ + labelled(
                    sender_label(1),
                    (1 + k) as nat,
                ),
            forall|k: int|
                5 <= k < 5 + j ==> (#[trigger] lines@[k])@ == "Message received: "@ + labelled(
                    sender_label(2),
                    (k - 4) as nat,
                ),
        decreases 5 - j,
    {
        lines.push(received_line(second[j].as_str()));
        j = j + 1;
    }
    lines
}

/// What the threads share behind a lock: a message and a counter.
pub struct Shared {
    pub message: String,
    pub counter: u32,
}

/// The message that a thread leaves when it has brought the counter to
/// `counter`.
pub open spec fn update_message(thread: nat, counter: nat) -> Seq<char> {
    "Thread "@ + decimal(thread) + " updated the counter to "@ + decimal(counter)
}

/// What the watching thread does with the state it finds.
pub enum Watch {
    /// The counter has reached 20: say so and stop.
    Done(String),
    /// Not yet: show the message and look again.
    Again(String),
}

impl Shared {
    /// The state before any thread has run.
    pub fn new() -> (r: Shared)
        ensures
            r.message@ == "empty"@,
            r.counter == 0,
    {
        Shared { message: String::from_str("empty"), counter: 0 }
    }

    /// One step of a counting thread, taken while it holds the lock: adds
    /// one to the counter and leaves a message that says so.
    pub fn bump(&mut self, thread: u32)
        requires
            old(self).counter < u32::MAX,
        ensures
            final(self).counter == old(self).counter + 1,
            final(self).message@ == update_message(thread as nat, final(self).counter as nat),
    {
        self.counter += 1;
        let mut message = String::from_str("Thread ");
        push_decimal(&mut message, thread as u128);
        message.append(" updated the counter to ");
        push_decimal(&mut message, self.counter as u128);
        self.message = message;
    }

    /// The ten steps of one counting thread, with nothing in between.
    pub fn bump_ten_times(&mut self, thread: u32)
        requires
            old(self).counter <= u32::MAX - 10,
        ensures
            final(self).counter == old(self).counter + 10,
            final(self).message@ == update_message(thread as nat, final(self).counter as nat),
    {
        let mut i: u32 = 0;
        while i < 10
            invariant
                i <= 10,
                self.counter == old(self).counter + i,
                old(self).counter <= u32::MAX - 10,
                i > 0 ==> self.message@ == update_message(thread as nat, self.counter as nat),
            decreases 10 - i,
        {
            self.bump(thread);
            i = i + 1;
        }
    }

    /// One look of the watching thread, taken while it holds the lock.
    pub fn watch(&self) -> (r: Watch)
        ensures
            self.counter == 20 ==> r is Done && r->Done_0@
                == "Counter reached 20, threads are done with their loops!"@,
            self.counter != 20 ==> r is Again && r->Again_0@ == self.message@,
    {
        if self.counter == 20 {
            Watch::Done(String::from_str("Counter reached 20, threads are done with their loops!"))
        } else {
            Watch::Again(self.message.clone())
        }
    }
}

/// Two threads count to ten each on one counter, and a third watches until
/// the counter stands at 20. Run here one thread after the other; whatever
/// the order in which the steps are taken under the lock, twenty steps bring
/// the counter to 20 and the watcher stops.
pub fn mutexes() -> (r: (Shared, Watch))
    ensures
        r.0.counter == 20,
        r.0.message@ == update_message(2, 20),
        r.1 is Done,
        r.1->Done_0@ == "Counter reached 20, threads are done with their loops!"@,
{
    let mut data = Shared::new();
    data.bump_ten_times(1);
    data.bump_ten_times(2);
    let seen = data.watch();
    (data, seen)
}

/// Marker for the traits that let a value cross to another thread or be
/// shared between threads. The compiler derives them; there is nothing to
/// run.
pub fn sync_and_send() {
}

/// A separator between the sections of the output: an empty line, a rule
/// and an empty line.
pub fn sep() -> (lines: Vec<String>)
    ensures
        lines@.len() == 3,
        lines@[0]@ == ""@,
        lines@[1]@
            == "----------------------------------------------------------------------------------"@,
        lines@[2]@ == ""@,
{
    let mut lines: Vec<String> = Vec::new();
    lines.push(String::from_str(""));
    lines.push(
        String::from_str(
            "----------------------------------------------------------------------------------",
        ),
    );
    lines.push(String::from_str(""));
    lines
}

} // verus!
