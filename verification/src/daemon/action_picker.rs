//! Presenting a notification's actions through an external picker: the
//! command to run and the reading of its answer. Running the picker is
//! left to the caller.

use vstd::prelude::*;
use crate::notification::{Action, string_views};
use crate::text::{chars_of, string_of, trim_whitespace, trimmed};

verus! {

/// Why no action was picked.
#[derive(Debug)]
pub enum PickError {
    /// The notification offers no actions.
    NoActions,
    /// The picker command has no words.
    EmptyPicker,
    /// The picker program could not be started.
    LaunchFailed { program: String, reason: String },
    /// Talking to the picker failed.
    Io { reason: String },
    /// The picker exited unsuccessfully; `status` describes its exit.
    Cancelled { status: String },
    /// The picker answered a label that no action has.
    UnknownLabel { label: String },
}

impl PickError {
    /// The error's message.
    pub open spec fn text(self) -> Seq<char> {
        match self {
            PickError::NoActions => "last notification has no actions"@,
            PickError::EmptyPicker => "picker command is empty"@,
            PickError::LaunchFailed { program, reason } => "failed to launch picker '"@ + program@
                + "': "@ + reason@,
            PickError::Io { reason } => reason@,
            PickError::Cancelled { status } => "picker cancelled (exit code "@ + status@ + ")"@,
            PickError::UnknownLabel { label } => "picker returned unknown label: '"@ + label@
                + "'"@,
        }
    }

    /// The error's message.
    pub fn message(&self) -> (s: String)
        ensures
            s@ == self.text(),
    {
        match self {
            PickError::NoActions => "last notification has no actions".to_owned(),
            PickError::EmptyPicker => "picker command is empty".to_owned(),
            PickError::LaunchFailed { program, reason } => {
                let mut s = "failed to launch picker '".to_owned();
                s.append(program.as_str());
                s.append("': ");
                s.append(reason.as_str());
                s
            },
            PickError::Io { reason } => reason.clone(),
            PickError::Cancelled { status } => {
                let mut s = "picker cancelled (exit code ".to_owned();
                s.append(status.as_str());
                s.append(")");
                s
            },
            PickError::UnknownLabel { label } => {
                let mut s = "picker returned unknown label: '".to_owned();
                s.append(label.as_str());
                s.append("'");
                s
            },
        }
    }
}

/// Where a word splitter stands after some characters: the finished words,
/// the word being read, and whether it is inside single or double quotes.
pub struct SplitState {
    pub words: Seq<Seq<char>>,
    pub current: Seq<char>,
    pub in_single: bool,
    pub in_double: bool,
}

/// One character read by the word splitter: a quote toggles its kind of
/// quoting unless inside the other kind; an unquoted space ends the
/// current word, if any; every other character joins the current word.
pub open spec fn split_step(st: SplitState, c: char) -> SplitState {
    if c == '\'' && !st.in_double {
        SplitState { in_single: !st.in_single, ..st }
    } else if c == '"' && !st.in_single {
        SplitState { in_double: !st.in_double, ..st }
    } else if c == ' ' && !st.in_single && !st.in_double {
        if st.current.len() > 0 {
            SplitState { words: st.words.push(st.current), current: Seq::empty(), ..st }
        } else {
            st
        }
    } else {
        SplitState { current: st.current.push(c), ..st }
    }
}

/// The splitter's state after the first `n` characters of `s`.
pub open spec fn split_prefix(s: Seq<char>, n: int) -> SplitState
    decreases n,
{
    if n <= 0 {
        SplitState { words: Seq::empty(), current: Seq::empty(), in_single: false, in_double: false }
    } else {
        split_step(split_prefix(s, n - 1), s[n - 1])
    }
}

/// The words of a command line: split on spaces outside quotes, with the
/// quotes removed; a final unfinished word counts.
pub open spec fn spec_shell_words(s: Seq<char>) -> Seq<Seq<char>> {
    let st = split_prefix(s, s.len() as int);
    if st.current.len() > 0 {
        st.words.push(st.current)
    } else {
        st.words
    }
}

/// No word of a split state is empty.
pub open spec fn words_nonempty(words: Seq<Seq<char>>) -> bool {
    forall|i: int| 0 <= i < words.len() ==> #[trigger] words[i].len() > 0
}

proof fn lemma_split_prefix_words_nonempty(s: Seq<char>, n: int)
    ensures
        words_nonempty(split_prefix(s, n).words),
    decreases n,
{
    if n > 0 {
        lemma_split_prefix_words_nonempty(s, n - 1);
        let st = split_prefix(s, n - 1);
        let c = s[n - 1];
        if !(c == '\'' && !st.in_double) && !(c == '"' && !st.in_single) && c == ' '
            && !st.in_single && !st.in_double && st.current.len() > 0 {
            assert(forall|i: int|
                0 <= i < st.words.len() ==> #[trigger] st.words.push(st.current)[i]
                    == st.words[i]);
        }
    }
}

/// No quote characters in `s`.
pub open spec fn unquoted(s: Seq<char>) -> bool {
    forall|i: int| 0 <= i < s.len() ==> #[trigger] s[i] != '\'' && s[i] != '"'
}

proof fn lemma_split_prefix_unquoted(s: Seq<char>, n: int)
    requires
        unquoted(s),
        n <= s.len(),
    ensures
        !split_prefix(s, n).in_single,
        !split_prefix(s, n).in_double,
        !split_prefix(s, n).current.contains(' '),
        forall|i: int|
            0 <= i < split_prefix(s, n).words.len() ==> !(#[trigger] split_prefix(
                s,
                n,
            ).words[i]).contains(' '),
    decreases n,
{
    if n > 0 {
        lemma_split_prefix_unquoted(s, n - 1);
        let st = split_prefix(s, n - 1);
        let c = s[n - 1];
        assert(c != '\'' && c != '"');
        if c == ' ' {
            if st.current.len() > 0 {
                assert(forall|i: int|
                    0 <= i < st.words.len() ==> #[trigger] st.words.push(st.current)[i]
                        == st.words[i]);
            }
            assert(!Seq::<char>::empty().contains(' '));
        } else {
            assert(forall|i: int|
                0 <= i < st.current.len() ==> #[trigger] st.current.push(c)[i] == st.current[i]);
            assert(!st.current.push(c).contains(' '));
        }
    }
}

/// Splitting never yields an empty word, and a command line without quote
/// characters splits into words without spaces.
pub proof fn lemma_shell_words_nonempty(s: Seq<char>)
    ensures
        words_nonempty(spec_shell_words(s)),
        unquoted(s) ==> forall|i: int|
            0 <= i < spec_shell_words(s).len() ==> !(#[trigger] spec_shell_words(s)[i]).contains(
                ' ',
            ),
{
    lemma_split_prefix_words_nonempty(s, s.len() as int);
    if unquoted(s) {
        lemma_split_prefix_unquoted(s, s.len() as int);
        let st = split_prefix(s, s.len() as int);
        if st.current.len() > 0 {
            assert(forall|i: int|
                0 <= i < st.words.len() ==> #[trigger] st.words.push(st.current)[i] == st.words[i]);
        }
    }
}

/// `s` with every occurrence of the character `q` taken out.
pub open spec fn without(s: Seq<char>, q: char) -> Seq<char>
    decreases s.len(),
{
    if s.len() == 0 {
        Seq::empty()
    } else if s.last() == q {
        without(s.drop_last(), q)
    } else {
        without(s.drop_last(), q).push(s.last())
    }
}

/// Whether `s` holds the character `c`.
pub open spec fn holds(s: Seq<char>, c: char) -> bool {
    exists|i: int| 0 <= i < s.len() && s[i] == c
}

proof fn lemma_split_without_spaces(s: Seq<char>, n: int)
    requires
        0 <= n <= s.len(),
        !holds(s, ' '),
    ensures
        split_prefix(s, n).words.len() == 0,
    decreases n,
{
    if n > 0 {
        lemma_split_without_spaces(s, n - 1);
        assert(s[n - 1] != ' ');
    }
}

/// The number of occurrences of `q` in `s`.
pub open spec fn occurrences(s: Seq<char>, q: char) -> nat
    decreases s.len(),
{
    if s.len() == 0 {
        0
    } else {
        occurrences(s.drop_last(), q) + if s.last() == q {
            1nat
        } else {
            0nat
        }
    }
}

/// Whether every space of `s` stands inside a pair of `q` quotes: an odd
/// number of `q` characters comes before it.
pub open spec fn spaces_quoted(s: Seq<char>, q: char) -> bool {
    forall|i: int| 0 <= i < s.len() && #[trigger] s[i] == ' ' ==> occurrences(s.take(i), q) % 2 == 1
}

proof fn lemma_split_one_quote_kind(s: Seq<char>, n: int, q: char, other: char)
    requires
        0 <= n <= s.len(),
        spaces_quoted(s, q),
        !holds(s, other),
        (q == '"' && other == '\'') || (q == '\'' && other == '"'),
    ensures
        split_prefix(s, n).words.len() == 0,
        split_prefix(s, n).current == without(s.take(n), q),
        q == '"' ==> !split_prefix(s, n).in_single && split_prefix(s, n).in_double == (occurrences(
            s.take(n),
            q,
        ) % 2 == 1),
        q == '\'' ==> !split_prefix(s, n).in_double && split_prefix(s, n).in_single == (
        occurrences(s.take(n), q) % 2 == 1),
    decreases n,
{
    if n == 0 {
        assert(s.take(0) =~= Seq::<char>::empty());
    } else {
        lemma_split_one_quote_kind(s, n - 1, q, other);
        assert(s[n - 1] != other);
        assert(s.take(n).drop_last() =~= s.take(n - 1));
        assert(s.take(n).last() == s[n - 1]);
        if s[n - 1] == ' ' {
            assert(occurrences(s.take(n - 1), q) % 2 == 1);
        }
    }
}

/// Quote characters only group: they never end a word, and only a space
/// outside quotes separates words. A command line whose spaces all stand
/// inside quotes (in particular one without spaces) is at most one word;
/// when it uses only one kind of quote, that word is the line with the
/// quote characters taken out, spaces inside the quotes kept (none when
/// nothing is left).
pub proof fn lemma_quotes_never_split(s: Seq<char>)
    ensures
        !holds(s, ' ') ==> spec_shell_words(s).len() <= 1,
        spaces_quoted(s, '"') && !holds(s, '\'') ==> spec_shell_words(s) == (if without(
            s,
            '"',
        ).len() > 0 {
            seq![without(s, '"')]
        } else {
            Seq::<Seq<char>>::empty()
        }),
        spaces_quoted(s, '\'') && !holds(s, '"') ==> spec_shell_words(s) == (if without(
            s,
            '\'',
        ).len() > 0 {
            seq![without(s, '\'')]
        } else {
            Seq::<Seq<char>>::empty()
        }),
{
    assert(s.take(s.len() as int) =~= s);
    if !holds(s, ' ') {
        lemma_split_without_spaces(s, s.len() as int);
    }
    if spaces_quoted(s, '"') && !holds(s, '\'') {
        lemma_split_one_quote_kind(s, s.len() as int, '"', '\'');
    }
    if spaces_quoted(s, '\'') && !holds(s, '"') {
        lemma_split_one_quote_kind(s, s.len() as int, '\'', '"');
    }
}

/// The state the splitter starts in.
pub open spec fn split_start() -> SplitState {
    SplitState { words: Seq::empty(), current: Seq::empty(), in_single: false, in_double: false }
}

/// The splitter's state after reading `t` from state `st`.
pub open spec fn split_from(st: SplitState, t: Seq<char>) -> SplitState
    decreases t.len(),
{
    if t.len() == 0 {
        st
    } else {
        split_step(split_from(st, t.drop_last()), t.last())
    }
}

proof fn lemma_split_prefix_is_split_from(s: Seq<char>, n: int)
    requires
        0 <= n <= s.len(),
    ensures
        split_prefix(s, n) == split_from(split_start(), s.take(n)),
    decreases n,
{
    if n == 0 {
        assert(s.take(0) =~= Seq::<char>::empty());
    } else {
        lemma_split_prefix_is_split_from(s, n - 1);
        assert(s.take(n).drop_last() =~= s.take(n - 1));
    }
}

proof fn lemma_split_from_concat(st: SplitState, a: Seq<char>, b: Seq<char>)
    ensures
        split_from(st, a + b) == split_from(split_from(st, a), b),
    decreases b.len(),
{
    if b.len() == 0 {
        assert(a + b =~= a);
    } else {
        lemma_split_from_concat(st, a, b.drop_last());
        assert((a + b).drop_last() =~= a + b.drop_last());
        assert((a + b).last() == b.last());
    }
}

proof fn lemma_split_from_keeps_words(w: Seq<Seq<char>>, c: Seq<char>, t: Seq<char>)
    requires
        unquoted(t),
    ensures
        ({
            let from_w = split_from(SplitState { words: w, current: c, in_single: false, in_double: false }, t);
            let from_e = split_from(SplitState { words: Seq::empty(), current: c, in_single: false, in_double: false }, t);
            &&& from_w.words == w + from_e.words
            &&& from_w.current == from_e.current
            &&& !from_w.in_single && !from_w.in_double
            &&& !from_e.in_single && !from_e.in_double
        }),
    decreases t.len(),
{
    if t.len() > 0 {
        let u = t.drop_last();
        assert(unquoted(u)) by {
            assert forall|i: int| 0 <= i < u.len() implies #[trigger] u[i] != '\'' && u[i] != '"' by {
                assert(u[i] == t[i]);
            }
        }
        lemma_split_from_keeps_words(w, c, u);
        assert(t.last() == t[t.len() - 1]);
        let e = split_from(SplitState { words: Seq::empty(), current: c, in_single: false, in_double: false }, u);
        assert(w + e.words.push(e.current) =~= (w + e.words).push(e.current));
    }
}

/// The words of a line as the splitter ends them.
pub open spec fn finish(st: SplitState) -> Seq<Seq<char>> {
    if st.current.len() > 0 {
        st.words.push(st.current)
    } else {
        st.words
    }
}

/// An unquoted space separates words: the words of two quote-free lines
/// joined by a space are the words of the first followed by those of the
/// second. A quote-free line without spaces is one word, itself (none
/// when it is empty).
pub proof fn lemma_unquoted_space_separates(s: Seq<char>, t: Seq<char>)
    requires
        unquoted(s),
        unquoted(t),
    ensures
        spec_shell_words(s + seq![' '] + t) == spec_shell_words(s) + spec_shell_words(t),
        !holds(s, ' ') ==> spec_shell_words(s) == (if s.len() > 0 {
            seq![s]
        } else {
            Seq::<Seq<char>>::empty()
        }),
{
    let full = s + seq![' '] + t;
    lemma_split_prefix_is_split_from(full, full.len() as int);
    lemma_split_prefix_is_split_from(s, s.len() as int);
    lemma_split_prefix_is_split_from(t, t.len() as int);
    assert(full.take(full.len() as int) =~= full);
    assert(s.take(s.len() as int) =~= s);
    assert(t.take(t.len() as int) =~= t);
    lemma_split_from_concat(split_start(), s + seq![' '], t);
    lemma_split_from_concat(split_start(), s, seq![' ']);
    lemma_split_prefix_unquoted(s, s.len() as int);
    let st_s = split_from(split_start(), s);
    assert(seq![' '].drop_last() =~= Seq::<char>::empty());
    assert(split_prefix(s, s.len() as int) == st_s);
    assert(!st_s.in_single && !st_s.in_double);
    let st_sp = split_from(st_s, seq![' ']);
    assert(split_from(st_s, seq![' '].drop_last()) == st_s);
    assert(seq![' '].last() == ' ');
    assert(st_sp == split_step(st_s, ' '));
    assert(st_sp.words == finish(st_s));
    assert(st_sp.current == Seq::<char>::empty());
    lemma_split_from_keeps_words(finish(st_s), Seq::empty(), t);
    assert(st_sp == SplitState { words: finish(st_s), current: Seq::<char>::empty(), in_single: false, in_double: false });
    assert(split_start() == SplitState { words: Seq::<Seq<char>>::empty(), current: Seq::<char>::empty(), in_single: false, in_double: false });
    let st_t = split_from(split_start(), t);
    let st_full = split_from(st_sp, t);
    assert(st_full.words == finish(st_s) + st_t.words);
    if st_t.current.len() > 0 {
        assert(finish(st_s) + st_t.words.push(st_t.current) =~= (finish(st_s) + st_t.words).push(st_t.current));
    }
    if !holds(s, ' ') {
        lemma_split_one_quote_kind(s, s.len() as int, '"', '\'');
        lemma_without_absent(s, '"');
    }
}

proof fn lemma_without_absent(s: Seq<char>, q: char)
    requires
        !holds(s, q),
    ensures
        without(s, q) == s,
    decreases s.len(),
{
    if s.len() > 0 {
        let u = s.drop_last();
        assert(!holds(u, q)) by {
            if holds(u, q) {
                let i = choose|i: int| 0 <= i < u.len() && u[i] == q;
                assert(s[i] == q);
            }
        }
        lemma_without_absent(u, q);
        assert(s.last() == s[s.len() - 1]);
        assert(u.push(s.last()) =~= s);
    }
}

/// Minimal shell word splitter: splits on spaces, respects single and double quotes.
pub fn shell_words(s: &str) -> (words: Vec<String>)
    ensures
        string_views(words@) == spec_shell_words(s@),
        !holds(s@, ' ') ==> words@.len() <= 1,
        spaces_quoted(s@, '"') && !holds(s@, '\'') ==> string_views(words@) == (if without(
            s@,
            '"',
        ).len() > 0 {
            seq![without(s@, '"')]
        } else {
            Seq::<Seq<char>>::empty()
        }),
{
    proof {
        lemma_quotes_never_split(s@);
    }
    let chars = chars_of(s);
    let mut words: Vec<String> = Vec::new();
    let mut current: Vec<char> = Vec::new();
    let mut in_single_quote = false;
    let mut in_double_quote = false;
    let mut i: usize = 0;
    proof {
        assert(string_views(words@) =~= Seq::<Seq<char>>::empty());
        assert(current@ =~= Seq::<char>::empty());
    }
    while i < chars.len()
        invariant
            i <= chars@.len(),
            chars@ == s@,
            split_prefix(s@, i as int) == (SplitState {
                words: string_views(words@),
                current: current@,
                in_single: in_single_quote,
                in_double: in_double_quote,
            }),
        decreases chars@.len() - i,
    {
        let ch = chars[i];
        let ghost before = string_views(words@);
        if ch == '\'' && !in_double_quote {
            in_single_quote = !in_single_quote;
        } else if ch == '"' && !in_single_quote {
            in_double_quote = !in_double_quote;
        } else if ch == ' ' && !in_single_quote && !in_double_quote {
            if current.len() > 0 {
                let w = string_of(current.as_slice());
                words.push(w);
                current = Vec::new();
                proof {
                    assert(string_views(words@) =~= before.push(w@));
                    assert(current@ =~= Seq::<char>::empty());
                }
            }
        } else {
            current.push(ch);
        }
        i = i + 1;
    }
    if current.len() > 0 {
        let ghost before = string_views(words@);
        let w = string_of(current.as_slice());
        words.push(w);
        proof {
            assert(string_views(words@) =~= before.push(w@));
        }
    }
    words
}

/// The program and arguments of the picker command, or why there are none.
pub open spec fn spec_picker_command(picker_cmd: Seq<char>, n_actions: nat) -> Result<(Seq<char>, Seq<Seq<char>>), ()> {
    let words = spec_shell_words(picker_cmd);
    if n_actions == 0 || words.len() == 0 {
        Err(())
    } else {
        Ok((words[0], words.drop_first()))
    }
}

/// Prepares the picker for `actions`: the program to run and its
/// arguments, split from `picker_cmd` like a shell would. Fails when there
/// is nothing to pick from or nothing to run.
pub fn picker_command(picker_cmd: &str, actions: &[Action]) -> (r: Result<
    (String, Vec<String>),
    PickError,
>)
    ensures
        actions@.len() == 0 ==> r matches Err(PickError::NoActions),
        actions@.len() > 0 && spec_shell_words(picker_cmd@).len() == 0 ==> r matches Err(
            PickError::EmptyPicker,
        ),
        r is Ok <==> (actions@.len() > 0 && spec_shell_words(picker_cmd@).len() > 0),
        r matches Ok((program, args)) ==> program@ == spec_shell_words(picker_cmd@)[0]
            && string_views(args@) == spec_shell_words(picker_cmd@).drop_first(),
{
    if actions.len() == 0 {
        return Err(PickError::NoActions);
    }
    let mut parts = shell_words(picker_cmd);
    if parts.len() == 0 {
        return Err(PickError::EmptyPicker);
    }
    let ghost all = string_views(parts@);
    let program = parts.remove(0);
    proof {
        assert(string_views(parts@) =~= all.drop_first());
    }
    Ok((program, parts))
}

/// Whether position `i` of `actions` is the first action labelled `label`.
pub open spec fn is_first_labelled(actions: Seq<Action>, label: Seq<char>, i: int) -> bool {
    &&& 0 <= i < actions.len()
    &&& actions[i].label@ == label
    &&& forall|j: int| 0 <= j < i ==> actions[j].label@ != label
}

/// Reads the picker's answer: an unsuccessful exit is a cancellation;
/// otherwise the output, trimmed of surrounding whitespace, must be the
/// label of an action, and the first action with that label is picked.
pub fn choose_action(actions: &[Action], succeeded: bool, status: String, output: &str) -> (r: Result<Action, PickError>)
    ensures
        !succeeded ==> (r matches Err(PickError::Cancelled { status: st }) && st == status),
        succeeded ==> match r {
            Ok(a) => exists|i: int|
                is_first_labelled(actions@, trimmed(output@), i) && a == actions@[i],
            Err(PickError::UnknownLabel { label }) => label@ == trimmed(output@) && forall|i: int|
                0 <= i < actions@.len() ==> actions@[i].label@ != trimmed(output@),
            _ => false,
        },
{
    if !succeeded {
        return Err(PickError::Cancelled { status });
    }
    let selected = trim_whitespace(output);
    let mut i: usize = 0;
    while i < actions.len()
        invariant
            i <= actions@.len(),
            succeeded,
            selected@ == trimmed(output@),
            forall|j: int| 0 <= j < i ==> actions@[j].label@ != selected@,
        decreases actions@.len() - i,
    {
        if actions[i].label == selected {
            let a = actions[i].clone();
            proof {
                assert(is_first_labelled(actions@, trimmed(output@), i as int));
            }
            return Ok(a);
        }
        i = i + 1;
    }
    Err(PickError::UnknownLabel { label: selected })
}

} // verus!
