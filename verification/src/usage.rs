//! Token-usage accounting over per-session logs.
//!
//! The logs are line-delimited records on disk; reading files and decoding
//! each line happen outside the library, which receives the plain counts
//! per entry and owns the accounting: summing the totals and tracking the
//! most recent context size (cache reads would be counted many times over
//! if the context were summed instead).

use vstd::prelude::*;

use crate::text::replaced;

verus! {

/// Token usage statistics for a session.
#[derive(Clone, Copy, PartialEq, Eq, Structural, Debug)]
pub struct TokenUsage {
    pub input_tokens: u64,
    pub output_tokens: u64,
    pub cache_creation_tokens: u64,
    pub cache_read_tokens: u64,
    /// The most recent request's context size.
    pub total_tokens: u64,
    pub message_count: u32,
}

impl TokenUsage {
    pub open spec fn zero_spec() -> TokenUsage {
        TokenUsage {
            input_tokens: 0,
            output_tokens: 0,
            cache_creation_tokens: 0,
            cache_read_tokens: 0,
            total_tokens: 0,
            message_count: 0,
        }
    }

    pub fn zero() -> (r: TokenUsage)
        ensures
            r == TokenUsage::zero_spec(),
    {
        TokenUsage {
            input_tokens: 0,
            output_tokens: 0,
            cache_creation_tokens: 0,
            cache_read_tokens: 0,
            total_tokens: 0,
            message_count: 0,
        }
    }
}

/// The per-request token counts of one log entry, when it carries any.
#[derive(Clone, Copy, PartialEq, Eq, Structural, Debug)]
pub struct UsageCounts {
    pub input_tokens: u64,
    pub output_tokens: u64,
    pub cache_creation_tokens: u64,
    pub cache_read_tokens: u64,
}

/// One decoded log entry: whether it is a conversation turn, and its
/// counts if it carries usage.
#[derive(Clone, Copy, PartialEq, Eq, Structural, Debug)]
pub struct UsageEntry {
    /// A user or assistant turn (counted as a message).
    pub is_turn: bool,
    pub usage: Option<UsageCounts>,
}

/// Saturating addition: counters hold at the type's ceiling rather than
/// wrap.
pub open spec fn sat_add64(a: nat, b: nat) -> nat {
    if a + b > u64::MAX {
        u64::MAX as nat
    } else {
        a + b
    }
}

pub open spec fn sat_add32(a: nat, b: nat) -> nat {
    if a + b > u32::MAX {
        u32::MAX as nat
    } else {
        a + b
    }
}

fn sat_add64_exec(a: u64, b: u64) -> (r: u64)
    ensures
        r == sat_add64(a as nat, b as nat),
{
    if a <= u64::MAX - b {
        a + b
    } else {
        u64::MAX
    }
}

/// The accumulator state folded over the entries: the usage so far and the
/// context size of the most recent request that had one.
pub open spec fn fold_entry(acc: (TokenUsage, nat), e: UsageEntry) -> (TokenUsage, nat) {
    let (u, last_ctx) = acc;
    let with_turn = TokenUsage {
        message_count: sat_add32(u.message_count as nat, if e.is_turn {
            1
        } else {
            0
        }) as u32,
        ..u
    };
    match e.usage {
        Some(c) => {
            let summed = TokenUsage {
                input_tokens: sat_add64(
                    with_turn.input_tokens as nat,
                    c.input_tokens as nat,
                ) as u64,
                output_tokens: sat_add64(
                    with_turn.output_tokens as nat,
                    c.output_tokens as nat,
                ) as u64,
                cache_creation_tokens: sat_add64(
                    with_turn.cache_creation_tokens as nat,
                    c.cache_creation_tokens as nat,
                ) as u64,
                cache_read_tokens: sat_add64(
                    with_turn.cache_read_tokens as nat,
                    c.cache_read_tokens as nat,
                ) as u64,
                ..with_turn
            };
            let this_ctx = sat_add64(
                sat_add64(c.input_tokens as nat, c.cache_read_tokens as nat),
                c.cache_creation_tokens as nat,
            );
            if this_ctx > 0 {
                (summed, this_ctx)
            } else {
                (summed, last_ctx)
            }
        },
        None => (with_turn, last_ctx),
    }
}

/// The accumulated state over a whole session's entries.
pub open spec fn fold_entries(entries: Seq<UsageEntry>) -> (TokenUsage, nat)
    decreases entries.len(),
{
    if entries.len() == 0 {
        (TokenUsage::zero_spec(), 0)
    } else {
        fold_entry(fold_entries(entries.drop_last()), entries.last())
    }
}

/// The finished session usage: the fold's sums, with the total set to the
/// most recent request's context size.
pub open spec fn session_usage(entries: Seq<UsageEntry>) -> TokenUsage {
    TokenUsage { total_tokens: fold_entries(entries).1 as u64, ..fold_entries(entries).0 }
}

proof fn lemma_fold_ctx_bound(entries: Seq<UsageEntry>)
    ensures
        fold_entries(entries).1 <= u64::MAX,
    decreases entries.len(),
{
    if entries.len() > 0 {
        lemma_fold_ctx_bound(entries.drop_last());
    }
}

/// Accumulate the usage of one session's decoded entries.
pub fn accumulate_usage(entries: &Vec<UsageEntry>) -> (r: TokenUsage)
    ensures
        r == session_usage(entries@),
{
    let mut usage = TokenUsage::zero();
    let mut last_ctx: u64 = 0;
    let mut i: usize = 0;
    proof {
        assert(entries@.take(0) =~= Seq::<UsageEntry>::empty());
    }
    while i < entries.len()
        invariant
            i <= entries@.len(),
            fold_entries(entries@.take(i as int)).0 == usage,
            fold_entries(entries@.take(i as int)).1 == last_ctx,
        decreases entries@.len() - i,
    {
        proof {
            assert(entries@.take(i + 1).drop_last() =~= entries@.take(i as int));
            assert(entries@.take(i + 1).last() == entries@[i as int]);
            lemma_fold_ctx_bound(entries@.take(i + 1));
        }
        let e = entries[i];
        if e.is_turn {
            usage.message_count = if usage.message_count <= u32::MAX - 1 {
                usage.message_count + 1
            } else {
                u32::MAX
            };
        }
        match e.usage {
            Some(c) => {
                usage.input_tokens = sat_add64_exec(usage.input_tokens, c.input_tokens);
                usage.output_tokens = sat_add64_exec(usage.output_tokens, c.output_tokens);
                usage.cache_creation_tokens = sat_add64_exec(
                    usage.cache_creation_tokens,
                    c.cache_creation_tokens,
                );
                usage.cache_read_tokens = sat_add64_exec(
                    usage.cache_read_tokens,
                    c.cache_read_tokens,
                );
                let this_ctx = sat_add64_exec(
                    sat_add64_exec(c.input_tokens, c.cache_read_tokens),
                    c.cache_creation_tokens,
                );
                if this_ctx > 0 {
                    last_ctx = this_ctx;
                }
            },
            None => {},
        }
        i = i + 1;
    }
    proof {
        assert(entries@.take(i as int) =~= entries@);
    }
    usage.total_tokens = last_ctx;
    usage
}

/// Merge per-session totals across sessions: sums of everything, with the
/// grand total set to input plus cache reads.
pub fn combine_usage(sessions: &Vec<TokenUsage>) -> (r: TokenUsage)
    ensures
        r.input_tokens as nat == fold_sessions(sessions@).input_tokens,
        r.output_tokens as nat == fold_sessions(sessions@).output_tokens,
        r.cache_creation_tokens as nat == fold_sessions(sessions@).cache_creation_tokens,
        r.cache_read_tokens as nat == fold_sessions(sessions@).cache_read_tokens,
        r.message_count as nat == fold_sessions(sessions@).message_count,
        r.total_tokens as nat == sat_add64(
            r.input_tokens as nat,
            r.cache_read_tokens as nat,
        ),
{
    let mut total = TokenUsage::zero();
    let mut i: usize = 0;
    proof {
        assert(sessions@.take(0) =~= Seq::<TokenUsage>::empty());
    }
    while i < sessions.len()
        invariant
            i <= sessions@.len(),
            total.input_tokens as nat == fold_sessions(sessions@.take(i as int)).input_tokens,
            total.output_tokens as nat == fold_sessions(sessions@.take(i as int)).output_tokens,
            total.cache_creation_tokens as nat == fold_sessions(
                sessions@.take(i as int),
            ).cache_creation_tokens,
            total.cache_read_tokens as nat == fold_sessions(
                sessions@.take(i as int),
            ).cache_read_tokens,
            total.message_count as nat == fold_sessions(sessions@.take(i as int)).message_count,
        decreases sessions@.len() - i,
    {
        proof {
            assert(sessions@.take(i + 1).drop_last() =~= sessions@.take(i as int));
            assert(sessions@.take(i + 1).last() == sessions@[i as int]);
        }
        let s = sessions[i];
        total.input_tokens = sat_add64_exec(total.input_tokens, s.input_tokens);
        total.output_tokens = sat_add64_exec(total.output_tokens, s.output_tokens);
        total.cache_creation_tokens = sat_add64_exec(
            total.cache_creation_tokens,
            s.cache_creation_tokens,
        );
        total.cache_read_tokens = sat_add64_exec(total.cache_read_tokens, s.cache_read_tokens);
        total.message_count = if total.message_count <= u32::MAX - s.message_count {
            total.message_count + s.message_count
        } else {
            u32::MAX
        };
        i = i + 1;
    }
    proof {
        assert(sessions@.take(i as int) =~= sessions@);
    }
    total.total_tokens = sat_add64_exec(total.input_tokens, total.cache_read_tokens);
    total
}

/// Session-total sums as a fold.
pub open spec fn fold_sessions(sessions: Seq<TokenUsage>) -> TokenUsage
    decreases sessions.len(),
{
    if sessions.len() == 0 {
        TokenUsage::zero_spec()
    } else {
        let prev = fold_sessions(sessions.drop_last());
        let s = sessions.last();
        TokenUsage {
            input_tokens: sat_add64(prev.input_tokens as nat, s.input_tokens as nat) as u64,
            output_tokens: sat_add64(prev.output_tokens as nat, s.output_tokens as nat) as u64,
            cache_creation_tokens: sat_add64(
                prev.cache_creation_tokens as nat,
                s.cache_creation_tokens as nat,
            ) as u64,
            cache_read_tokens: sat_add64(
                prev.cache_read_tokens as nat,
                s.cache_read_tokens as nat,
            ) as u64,
            total_tokens: 0,
            message_count: sat_add32(prev.message_count as nat, s.message_count as nat) as u32,
        }
    }
}

/// Convert a project path to the log store's folder-name form: every path
/// separator becomes a hyphen.
pub fn project_path_to_claude_folder(project_path: &str) -> (r: String)
    ensures
        r@ == replaced(project_path@, "/"@, "-"@),
{
    proof {
        reveal_strlit("/");
    }
    crate::text::replace(project_path, "/", "-")
}

/// Convert a log folder name back to a path: every hyphen becomes a path
/// separator (used to test whether the project still exists).
pub fn claude_folder_to_path(folder_name: &str) -> (r: String)
    ensures
        r@ == replaced(folder_name@, "-"@, "/"@),
{
    proof {
        reveal_strlit("-");
    }
    crate::text::replace(folder_name, "-", "/")
}

} // verus!
