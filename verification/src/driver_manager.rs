//! The devices that the kernel has found, kind by kind.

use vstd::prelude::*;
use vstd::string::StrSliceExecFns;
use crate::util::boot::push_char;

verus! {

/// The place of the system timer.
pub struct Container<T> {
    data: Option<T>,
}

/// What the search for the timer of the running core has to do next.
#[derive(Clone, Copy, Debug, PartialEq, Eq, Structural)]
pub enum TimerStep {
    /// No timer was found at boot: there is nothing to hand out.
    Absent,
    /// Try to take the timer for the core.
    TryUse,
    /// The timer is taken: hand out the part of the running core.
    Ready,
}

impl<T> Container<T> {
    /// The device that is kept, if there is one.
    pub closed spec fn device(self) -> Option<T> {
        self.data
    }

    /// A place that holds nothing yet.
    pub fn new() -> (r: Self)
        ensures
            r.device() is None,
    {
        Container { data: None }
    }

    /// Keeps `device`, in place of what was kept before.
    pub fn set(&mut self, device: T)
        ensures
            final(self).device() == Some(device),
    {
        self.data = Some(device);
    }

    /// The device that is kept.
    pub fn get(&self) -> (r: Option<&T>)
        ensures
            r is Some <==> self.device() is Some,
            r matches Some(d) ==> self.device() == Some(*d),
    {
        self.data.as_ref()
    }

    /// Decides the next step of the search for the timer of the running
    /// core. `acquired` says how the last attempt to take the timer went,
    /// if there was one. An attempt that failed is always followed by
    /// another one: the search gives up only where no timer is kept.
    pub fn get_cpu_timer(&self, acquired: Option<bool>) -> (r: TimerStep)
        ensures
            r == (if self.device() is None {
                TimerStep::Absent
            } else if acquired == Some(true) {
                TimerStep::Ready
            } else {
                TimerStep::TryUse
            }),
    {
        if self.data.is_none() {
            TimerStep::Absent
        } else {
            match acquired {
                Some(true) => TimerStep::Ready,
                _ => TimerStep::TryUse,
            }
        }
    }
}

/// The number of characters before the first line break of `text`, or the
/// length of `text` if it has none.
pub open spec fn line_len(text: Seq<char>) -> nat
    decreases text.len(),
{
    if text.len() == 0 || text[0] == '\n' {
        0
    } else {
        1 + line_len(text.drop_first())
    }
}

/// The names of a list of compatible devices: its lines, in order, without
/// the empty ones.
pub open spec fn compatible_names(text: Seq<char>) -> Seq<Seq<char>>
    decreases text.len(),
{
    if text.len() == 0 {
        Seq::empty()
    } else {
        let len = line_len(text) as int;
        let rest = if len < text.len() {
            text.skip(len + 1)
        } else {
            Seq::empty()
        };
        (if len > 0 {
            seq![text.take(len)]
        } else {
            Seq::empty()
        }) + compatible_names(rest)
    }
}

/// The first line of a text ends where its first line break is.
proof fn lemma_line_len(line: Seq<char>, rest: Seq<char>)
    requires
        forall|i: int| 0 <= i < line.len() ==> line[i] != '\n',
        rest.len() == 0 || rest[0] == '\n',
    ensures
        line_len(line + rest) == line.len(),
    decreases line.len(),
{
    let text = line + rest;
    if line.len() == 0 {
        assert(text == rest);
    } else {
        assert(text[0] == line[0]);
        assert(text.drop_first() == line.drop_first() + rest);
        lemma_line_len(line.drop_first(), rest);
    }
}

/// Splits a list of compatible devices into its names.
pub fn split_compatibles(text: &str) -> (names: Vec<String>)
    ensures
        names.deep_view() == compatible_names(text@),
{
    let n = text.unicode_len();
    let mut names: Vec<String> = Vec::new();
    let mut line = String::new();
    let mut i: usize = 0;
    assert(line@ + text@.skip(0) == text@);
    assert(names.deep_view() == Seq::<Seq<char>>::empty());
    while i < n
        invariant
            i <= n,
            n == text@.len(),
            forall|k: int| 0 <= k < line@.len() ==> line@[k] != '\n',
            compatible_names(text@) == names.deep_view() + compatible_names(
                line@ + text@.skip(i as int),
            ),
        decreases n - i,
    {
        let c = text.get_char(i);
        let ghost before = line@ + text@.skip(i as int);
        let ghost rest = text@.skip(i as int + 1);
        if c == '\n' {
            proof {
                assert(before == line@ + (seq!['\n'] + rest));
                lemma_line_len(line@, seq!['\n'] + rest);
                assert(before.take(line@.len() as int) == line@);
                assert(before.skip(line@.len() as int + 1) == rest);
                assert(Seq::<char>::empty() + rest == rest);
            }
            if line.as_str().unicode_len() > 0 {
                let ghost old_names = names.deep_view();
                let ghost name = line@;
                names.push(line);
                assert(names.deep_view() == old_names + seq![name]);
                line = String::new();
            } else {
                line = String::new();
            }
        } else {
            push_char(&mut line, c);
            assert(line@ + rest == before);
        }
        i += 1;
    }
    proof {
        let last = line@ + text@.skip(n as int);
        assert(last == line@);
        if line@.len() > 0 {
            lemma_line_len(line@, Seq::empty());
            assert(line@ + Seq::<char>::empty() == line@);
            assert(line@.take(line@.len() as int) == line@);
            assert(compatible_names(Seq::<char>::empty()) == Seq::<Seq<char>>::empty());
        }
    }
    if line.as_str().unicode_len() > 0 {
        let ghost old_names = names.deep_view();
        let ghost name = line@;
        names.push(line);
        assert(names.deep_view() == old_names + seq![name]);
    }
    names
}

} // verus!
