//! Splitting an input line into a command name and arguments.
//!
//! A line is cut at runs of whitespace; empty fragments are dropped, so the
//! tokens are exactly the maximal non-blank substrings, in order. A line with
//! no tokens yields no command at all.

use vstd::prelude::*;

use crate::text::all_space;
use crate::text::is_space;
use crate::text::is_space_char;

verus! {

/// The maximal prefix of `s` that contains no whitespace.
pub open spec fn token_prefix(s: Seq<char>) -> Seq<char>
    decreases s.len(),
{
    if s.len() == 0 || is_space(s[0]) {
        Seq::empty()
    } else {
        seq![s[0]] + token_prefix(s.drop_first())
    }
}

proof fn lemma_token_prefix_len(s: Seq<char>)
    ensures
        token_prefix(s).len() <= s.len(),
    decreases s.len(),
{
    if s.len() > 0 && !is_space(s[0]) {
        lemma_token_prefix_len(s.drop_first());
    }
}

/// The whitespace-separated tokens of `s`, in order, each non-empty.
pub open spec fn spec_tokenize(s: Seq<char>) -> Seq<Seq<char>>
    decreases s.len(),
    via spec_tokenize_decreases
{
    if s.len() == 0 {
        Seq::empty()
    } else if is_space(s[0]) {
        spec_tokenize(s.drop_first())
    } else {
        seq![token_prefix(s)] + spec_tokenize(s.skip(token_prefix(s).len() as int))
    }
}

#[via_fn]
proof fn spec_tokenize_decreases(s: Seq<char>) {
    if s.len() > 0 && !is_space(s[0]) {
        lemma_token_prefix_len(s);
        assert(token_prefix(s).len() >= 1);
    }
}

/// A line produces no tokens exactly when every character in it is
/// whitespace; in particular an empty line produces none.
pub proof fn lemma_blank_line_no_tokens(s: Seq<char>)
    ensures
        all_space(s) <==> spec_tokenize(s).len() == 0,
    decreases s.len(),
{
    if s.len() == 0 {
    } else if is_space(s[0]) {
        lemma_blank_line_no_tokens(s.drop_first());
        if all_space(s.drop_first()) {
            assert forall|i: int| 0 <= i < s.len() implies is_space(s[i]) by {
                if i > 0 {
                    assert(s.drop_first()[i - 1] == s[i]);
                }
            }
        } else {
            let i = choose|i: int| 0 <= i < s.drop_first().len() && !is_space(s.drop_first()[i]);
            assert(s[i + 1] == s.drop_first()[i]);
        }
    } else {
        assert(!is_space(s[0]));
    }
}

/// Empty fragments are dropped: every token a line produces is non-empty.
pub proof fn lemma_tokens_nonempty(s: Seq<char>)
    ensures
        forall|k: int|
            0 <= k < spec_tokenize(s).len() ==> #[trigger] spec_tokenize(s)[k].len() > 0,
    decreases s.len(),
{
    if s.len() == 0 {
        assert(spec_tokenize(s).len() == 0);
    } else if is_space(s[0]) {
        lemma_tokens_nonempty(s.drop_first());
        assert(spec_tokenize(s) == spec_tokenize(s.drop_first()));
        assert forall|k: int|
            0 <= k < spec_tokenize(s).len() implies #[trigger] spec_tokenize(s)[k].len() > 0 by {
            assert(spec_tokenize(s)[k] == spec_tokenize(s.drop_first())[k]);
        }
    } else {
        lemma_token_prefix_len(s);
        let rest = s.skip(token_prefix(s).len() as int);
        lemma_tokens_nonempty(rest);
        assert forall|k: int|
            0 <= k < spec_tokenize(s).len() implies #[trigger] spec_tokenize(s)[k].len() > 0 by {
            if k == 0 {
                assert(spec_tokenize(s)[0] == token_prefix(s));
                assert(token_prefix(s).len() >= 1);
            } else {
                assert(spec_tokenize(s)[k] == spec_tokenize(rest)[k - 1]);
            }
        }
    }
}

/// If the characters of `t` before position `k` are non-blank and position
/// `k` (where present) is blank, the token prefix of `t` is exactly `t`
/// up to `k`.
proof fn lemma_token_prefix_exact(t: Seq<char>, k: int)
    requires
        0 <= k <= t.len(),
        forall|m: int| 0 <= m < k ==> !is_space(t[m]),
        k == t.len() || is_space(t[k]),
    ensures
        token_prefix(t) == t.take(k),
    decreases k,
{
    if k == 0 {
        assert(token_prefix(t) =~= t.take(0));
    } else {
        assert(!is_space(t[0]));
        assert forall|m: int| 0 <= m < k - 1 implies !is_space(t.drop_first()[m]) by {
            assert(t.drop_first()[m] == t[m + 1]);
        }
        if k < t.len() {
            assert(t.drop_first()[k - 1] == t[k]);
        }
        lemma_token_prefix_exact(t.drop_first(), k - 1);
        assert(token_prefix(t) =~= t.take(k));
    }
}

/// One parsed command: the leading token and the remaining tokens of a line.
pub struct Command {
    pub name: String,
    pub args: Vec<String>,
}

impl Command {
    /// The tokens the command stands for: the name followed by the arguments.
    pub open spec fn tokens(self) -> Seq<Seq<char>> {
        seq![self.name@] + self.args.deep_view()
    }

    /// A command is well formed when its name is non-empty.
    pub open spec fn wf(self) -> bool {
        self.name@.len() > 0
    }

    /// Splits `input` at whitespace runs. Returns `None` exactly when the
    /// line holds no token; otherwise the first token becomes the command
    /// name and the rest, in order, its arguments.
    pub fn parse(input: &str) -> (r: Option<Command>)
        ensures
            match r {
                Some(cmd) => {
                    &&& cmd.tokens() == spec_tokenize(input@)
                    &&& cmd.wf()
                },
                None => spec_tokenize(input@).len() == 0,
            },
    {
        let n = input.unicode_len();
        let mut toks: Vec<String> = Vec::new();
        let mut i: usize = 0;
        proof {
            assert(toks.deep_view() =~= Seq::<Seq<char>>::empty());
            assert(input@.skip(0) =~= input@);
            assert(toks.deep_view() + spec_tokenize(input@) =~= spec_tokenize(input@));
        }
        while i < n
            invariant
                n == input@.len(),
                i <= n,
                spec_tokenize(input@) == toks.deep_view() + spec_tokenize(input@.skip(i as int)),
                forall|k: int| 0 <= k < toks.len() ==> #[trigger] toks.deep_view()[k].len() > 0,
            decreases n - i,
        {
            let ghost prefix_toks = toks.deep_view();
            let c = input.get_char(i);
            if is_space_char(c) {
                proof {
                    assert(input@.skip(i as int)[0] == input@[i as int]);
                    assert(input@.skip(i as int).drop_first() =~= input@.skip(i as int + 1));
                }
                i += 1;
            } else {
                let mut j: usize = i;
                while j < n && !is_space_char(input.get_char(j))
                    invariant
                        n == input@.len(),
                        i <= j <= n,
                        forall|m: int| i <= m < j ==> !is_space(input@[m]),
                    decreases n - j,
                {
                    j += 1;
                }
                proof {
                    let rest = input@.skip(i as int);
                    let k = j - i;
                    assert forall|m: int| 0 <= m < k implies !is_space(rest[m]) by {
                        assert(rest[m] == input@[i + m]);
                    }
                    if j < n {
                        assert(rest[k as int] == input@[j as int]);
                    }
                    lemma_token_prefix_exact(rest, k as int);
                    assert(rest.take(k as int) =~= input@.subrange(i as int, j as int));
                    assert(rest.skip(k as int) =~= input@.skip(j as int));
                    assert(spec_tokenize(rest) == seq![input@.subrange(i as int, j as int)]
                        + spec_tokenize(input@.skip(j as int)));
                }
                let tok = input.substring_char(i, j);
                toks.push(tok.to_owned());
                proof {
                    assert(toks.deep_view() =~= prefix_toks.push(
                        input@.subrange(i as int, j as int),
                    ));
                    assert(prefix_toks + spec_tokenize(input@.skip(i as int)) =~= toks.deep_view()
                        + spec_tokenize(input@.skip(j as int)));
                }
                i = j;
            }
        }
        proof {
            assert(input@.skip(n as int) =~= Seq::<char>::empty());
            assert(spec_tokenize(input@) =~= toks.deep_view());
        }
        if toks.len() == 0 {
            None
        } else {
            let ghost all_toks = toks.deep_view();
            let name = toks.remove(0);
            proof {
                assert(name@ == all_toks[0]);
                assert(toks.deep_view() =~= all_toks.drop_first());
                assert(seq![name@] + toks.deep_view() =~= all_toks);
            }
            Some(Command { name, args: toks })
        }
    }
}

} // verus!
