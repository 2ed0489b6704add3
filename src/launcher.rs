use vstd::prelude::*;
use vstd::string::StrSliceExecFns;

verus! {

/// The characters that separate the words of a command line: the Unicode
/// `White_Space` characters.
pub open spec fn is_blank(c: char) -> bool {
    let u = c as u32;
    (0x09 <= u && u <= 0x0D) || u == 0x20 || u == 0x85 || u == 0xA0 || u == 0x1680 || (0x2000 <= u
        && u <= 0x200A) || u == 0x2028 || u == 0x2029 || u == 0x202F || u == 0x205F || u == 0x3000
}

/// The maximal runs of non-blank characters of `s`, in order.
pub open spec fn words(s: Seq<char>) -> Seq<Seq<char>>
    decreases s.len(),
{
    if s.len() == 0 {
        Seq::<Seq<char>>::empty()
    } else {
        let before = words(s.drop_last());
        let c = s.last();
        if is_blank(c) {
            before
        } else if s.len() >= 2 && !is_blank(s[s.len() - 2]) {
            before.update(before.len() - 1, before.last().push(c))
        } else {
            before.push(seq![c])
        }
    }
}

/// The views of a list of strings.
pub open spec fn views(v: Seq<String>) -> Seq<Seq<char>> {
    v.map_values(|w: String| w@)
}

fn blank(c: char) -> (r: bool)
    ensures
        r == is_blank(c),
{
    let u = c as u32;
    (0x09 <= u && u <= 0x0D) || u == 0x20 || u == 0x85 || u == 0xA0 || u == 0x1680 || (0x2000 <= u
        && u <= 0x200A) || u == 0x2028 || u == 0x2029 || u == 0x202F || u == 0x205F || u == 0x3000
}

/// Splits a command line into its blank-separated words. Quotes have no
/// special meaning.
pub fn split_command(command: &str) -> (r: Vec<String>)
    ensures
        views(r@) == words(command@),
{
    let ghost s = command@;
    let n = command.unicode_len();
    let mut done: Vec<String> = Vec::new();
    let mut start: usize = 0;
    let mut in_word: bool = false;
    let mut i: usize = 0;
    while i < n
        invariant
            s == command@,
            n == s.len(),
            i <= n,
            in_word ==> {
                &&& start < i
                &&& !is_blank(s[i - 1])
                &&& words(s.subrange(0, i as int)) == views(done@).push(s.subrange(start as int, i as int))
            },
            !in_word ==> {
                &&& i == 0 || is_blank(s[i - 1])
                &&& words(s.subrange(0, i as int)) == views(done@)
            },
        decreases n - i,
    {
        let c = command.get_char(i);
        let ghost p = s.subrange(0, i + 1);
        assert(p.drop_last() =~= s.subrange(0, i as int));
        assert(p.last() == c);
        if blank(c) {
            if in_word {
                let w = command.substring_char(start, i).to_owned();
                let ghost before = views(done@);
                done.push(w);
                assert(views(done@) =~= before.push(w@));
            }
            in_word = false;
        } else {
            if in_word {
                assert(p[p.len() - 2] == s[i - 1]);
                assert(s.subrange(start as int, i + 1) =~= s.subrange(start as int, i as int).push(c));
                assert(words(p) =~= views(done@).push(s.subrange(start as int, i + 1)));
            } else {
                if i > 0 {
                    assert(p[p.len() - 2] == s[i - 1]);
                }
                start = i;
                assert(s.subrange(start as int, i + 1) =~= seq![c]);
                in_word = true;
            }
        }
        i = i + 1;
    }
    assert(s.subrange(0, n as int) =~= s);
    if in_word {
        let w = command.substring_char(start, n).to_owned();
        let ghost before = views(done@);
        done.push(w);
        assert(views(done@) =~= before.push(w@));
    }
    done
}

/// Splits a command line into the program (its first word) and the
/// arguments (the words after it); `None` when the line holds no word.
pub fn parse_command(command: &str) -> (r: Option<(String, Vec<String>)>)
    ensures
        r is None <==> words(command@).len() == 0,
        r matches Some((program, args)) ==> {
            &&& program@ == words(command@)[0]
            &&& views(args@) == words(command@).drop_first()
        },
{
    let mut all = split_command(command);
    if all.len() == 0 {
        None
    } else {
        let ghost before = all@;
        let program = all.remove(0);
        assert(views(all@) =~= views(before).drop_first());
        Some((program, all))
    }
}

/// What one read from a child's output stream gave.
#[derive(Debug)]
pub enum ReadOutcome {
    /// The text read, up to and including a line break; empty at the end of the stream.
    Line(String),
    /// The read failed.
    Failed,
}

/// What the reading task does after a read.
#[derive(Debug)]
pub enum StreamAction {
    /// Send the line to the consumer and keep watching the stream.
    Forward(String),
    /// The stream has ended: stop watching it.
    Close,
    /// Reading failed: report it, then stop watching the stream as at its end.
    CloseFailed,
    /// The stream is unknown or already closed: do nothing.
    Ignore,
}

/// Which of a child's output streams are still open, keyed by their index.
pub struct StreamRegistry {
    open: Vec<bool>,
}

impl View for StreamRegistry {
    type V = Seq<bool>;

    closed spec fn view(&self) -> Seq<bool> {
        self.open@
    }
}

impl StreamRegistry {
    /// A registry of `count` streams, all open.
    pub fn new(count: usize) -> (r: StreamRegistry)
        ensures
            r@ == Seq::new(count as nat, |_k: int| true),
    {
        let mut open: Vec<bool> = Vec::new();
        let mut i: usize = 0;
        while i < count
            invariant
                i <= count,
                open@ == Seq::new(i as nat, |_k: int| true),
            decreases count - i,
        {
            open.push(true);
            i = i + 1;
        }
        StreamRegistry { open }
    }

    /// Whether stream `key` is known and still open.
    pub fn is_open(&self, key: usize) -> (r: bool)
        ensures
            r == (key < self@.len() && self@[key as int]),
    {
        key < self.open.len() && self.open[key]
    }

    /// Whether every stream has closed, so that the reading task can end.
    pub fn finished(&self) -> (r: bool)
        ensures
            r == (forall|k: int| 0 <= k < self@.len() ==> !(#[trigger] self@[k])),
    {
        let mut i: usize = 0;
        while i < self.open.len()
            invariant
                i <= self@.len(),
                forall|k: int| 0 <= k < i ==> !(#[trigger] self@[k]),
            decreases self@.len() - i,
        {
            if self.open[i] {
                return false;
            }
            i = i + 1;
        }
        true
    }

    /// Records what a read of stream `key` gave and says what to do next. A
    /// non-empty line is forwarded; an empty read or a failure closes the
    /// stream and leaves the others as they are; a closed or unknown stream
    /// is ignored.
    pub fn on_read(&mut self, key: usize, outcome: ReadOutcome) -> (r: StreamAction)
        ensures
            old(self)@.len() == final(self)@.len(),
            !(key < old(self)@.len() && old(self)@[key as int]) ==> {
                &&& r is Ignore
                &&& final(self)@ == old(self)@
            },
            key < old(self)@.len() && old(self)@[key as int] ==> match outcome {
                ReadOutcome::Line(line) => if line@.len() > 0 {
                    &&& r == StreamAction::Forward(line)
                    &&& final(self)@ == old(self)@
                } else {
                    &&& r is Close
                    &&& final(self)@ == old(self)@.update(key as int, false)
                },
                ReadOutcome::Failed => {
                    &&& r is CloseFailed
                    &&& final(self)@ == old(self)@.update(key as int, false)
                },
            },
    {
        if !self.is_open(key) {
            return StreamAction::Ignore;
        }
        match outcome {
            ReadOutcome::Line(line) => {
                if line.as_str().is_empty() {
                    self.open.set(key, false);
                    StreamAction::Close
                } else {
                    StreamAction::Forward(line)
                }
            },
            ReadOutcome::Failed => {
                self.open.set(key, false);
                StreamAction::CloseFailed
            },
        }
    }
}

} // verus!
