//! Message-pattern formatting with `{}` placeholders.
//!
//! A pattern is scanned once, left to right. Each `{}` token is
//! replaced by the next argument in order; an inserted argument is
//! taken verbatim and is never re-scanned. When the number of `{}`
//! tokens differs from the number of arguments the call does not fail:
//! the result is the pattern prefixed with `"Invalid pattern: "`, so
//! the mismatch is reported as the log message itself.

use vstd::prelude::*;

verus! {

/// How many `{}` placeholder tokens a left-to-right scan of `p` finds.
pub open spec fn placeholder_count(p: Seq<char>) -> nat
    decreases p.len(),
{
    if p.len() < 2 {
        0
    } else if p[0] == '{' && p[1] == '}' {
        1 + placeholder_count(p.skip(2))
    } else {
        placeholder_count(p.skip(1))
    }
}

/// The single-pass substitution of `args` into `p`: each `{}` found by
/// a left-to-right scan is replaced by the next argument, which is
/// inserted verbatim and not scanned again.
pub open spec fn substituted(p: Seq<char>, args: Seq<Seq<char>>) -> Seq<char>
    decreases p.len(),
{
    if p.len() < 2 {
        p
    } else if p[0] == '{' && p[1] == '}' {
        if args.len() > 0 {
            args[0] + substituted(p.skip(2), args.skip(1))
        } else {
            substituted(p.skip(2), args)
        }
    } else {
        seq![p[0]] + substituted(p.skip(1), args)
    }
}

/// The length, in characters, of the prefix put before a pattern when
/// the placeholder count and the argument count disagree.
pub const INVALID_PREFIX_CHARS: usize = 17;

/// The text reported when the placeholder count and the argument count
/// disagree.
pub open spec fn invalid_pattern(p: Seq<char>) -> Seq<char> {
    "Invalid pattern: "@ + p
}

/// What formatting `p` with `args` produces: the substitution when the
/// placeholder count matches the argument count, the mismatch report
/// otherwise.
pub open spec fn formatted(p: Seq<char>, args: Seq<Seq<char>>) -> Seq<char> {
    if placeholder_count(p) == args.len() {
        substituted(p, args)
    } else {
        invalid_pattern(p)
    }
}

/// The views of a sequence of string slices.
pub open spec fn arg_views(args: Seq<&str>) -> Seq<Seq<char>> {
    Seq::new(args.len(), |i: int| args[i]@)
}

/// The summed length of a sequence of argument texts.
pub open spec fn total_len(args: Seq<Seq<char>>) -> nat
    decreases args.len(),
{
    if args.len() == 0 {
        0
    } else {
        args[0].len() + total_len(args.skip(1))
    }
}

/// A pattern without placeholders comes out of substitution unchanged,
/// whatever the arguments.
proof fn lemma_substituted_no_placeholders(p: Seq<char>, args: Seq<Seq<char>>)
    requires
        placeholder_count(p) == 0,
    ensures
        substituted(p, args) == p,
    decreases p.len(),
{
    if p.len() < 2 {
    } else {
        assert(!(p[0] == '{' && p[1] == '}'));
        lemma_substituted_no_placeholders(p.skip(1), args);
        assert(seq![p[0]] + p.skip(1) =~= p);
    }
}

/// Substitution can only spend what it is given: the result is no
/// longer than the pattern plus all the arguments together.
proof fn lemma_substituted_len(p: Seq<char>, args: Seq<Seq<char>>)
    ensures
        substituted(p, args).len() <= p.len() + total_len(args),
    decreases p.len(),
{
    if p.len() < 2 {
    } else if p[0] == '{' && p[1] == '}' {
        if args.len() > 0 {
            lemma_substituted_len(p.skip(2), args.skip(1));
            assert(total_len(args) == args[0].len() + total_len(args.skip(1)));
        } else {
            lemma_substituted_len(p.skip(2), args);
        }
    } else {
        lemma_substituted_len(p.skip(1), args);
    }
}

/// Formatting never grows the text past the mismatch-report prefix plus
/// the pattern plus all the arguments together.
pub proof fn lemma_formatted_len(p: Seq<char>, args: Seq<Seq<char>>)
    ensures
        formatted(p, args).len() <= INVALID_PREFIX_CHARS + p.len() + total_len(args),
{
    reveal_strlit("Invalid pattern: ");
    lemma_substituted_len(p, args);
}

/// A pattern with no placeholders, formatted with no arguments, is
/// returned unchanged.
pub proof fn lemma_format_no_placeholders_unchanged(p: Seq<char>, args: Seq<Seq<char>>)
    requires
        placeholder_count(p) == 0,
        args.len() == 0,
    ensures
        formatted(p, args) == p,
{
    lemma_substituted_no_placeholders(p, args);
}

/// Format `pattern` with `args`: every `{}` is replaced, left to right,
/// by the corresponding argument; when the counts differ the result is
/// the pattern behind `"Invalid pattern: "` instead. This call never
/// fails.
pub fn formatter(pattern: &str, args: &[&str]) -> (res: String)
    ensures
        res@ == formatted(pattern@, arg_views(args@)),
        placeholder_count(pattern@) == 0 && args@.len() == 0 ==> res@ == pattern@,
{
    let ghost p = pattern@;
    let ghost views = arg_views(args@);
    let n = pattern.unicode_len();
    proof {
        assert(p.skip(0) =~= p);
        assert(views.skip(0) =~= views);
    }

    let mut i: usize = 0;
    let mut count: usize = 0;
    while i < n
        invariant
            i <= n,
            count <= i,
            n == p.len(),
            p == pattern@,
            placeholder_count(p) == count + placeholder_count(p.skip(i as int)),
        decreases n - i,
    {
        if i + 1 < n && pattern.get_char(i) == '{' && pattern.get_char(i + 1) == '}' {
            proof {
                assert(p.skip(i as int)[0] == p[i as int]);
                assert(p.skip(i as int)[1] == p[i as int + 1]);
                assert(p.skip(i as int).skip(2) =~= p.skip(i as int + 2));
            }
            count = count + 1;
            i = i + 2;
        } else {
            proof {
                if p.skip(i as int).len() >= 2 {
                    assert(p.skip(i as int)[0] == p[i as int]);
                    assert(p.skip(i as int)[1] == p[i as int + 1]);
                }
                assert(p.skip(i as int).skip(1) =~= p.skip(i as int + 1));
            }
            i = i + 1;
        }
    }
    proof {
        assert(p.skip(n as int) =~= Seq::<char>::empty());
        assert(placeholder_count(p) == count);
    }

    if count != args.len() {
        proof {
            assert(views.len() == args@.len());
        }
        let mut res = String::from_str("Invalid pattern: ");
        res.append(pattern);
        return res;
    }

    let mut res = String::new();
    proof {
        assert(p.subrange(0, 0) =~= Seq::<char>::empty());
        assert(res@ + p.subrange(0, 0) =~= res@);
    }
    let mut start: usize = 0;
    let mut at: usize = 0;
    let mut j: usize = 0;
    while at < n
        invariant
            start <= at <= n,
            j <= views.len(),
            n == p.len(),
            p == pattern@,
            views == arg_views(args@),
            views.len() == args@.len(),
            placeholder_count(p.skip(at as int)) == views.len() - j,
            res@ + p.subrange(start as int, at as int) + substituted(
                p.skip(at as int),
                views.skip(j as int),
            ) == substituted(p, views),
        decreases n - at,
    {
        if at + 1 < n && pattern.get_char(at) == '{' && pattern.get_char(at + 1) == '}' {
            proof {
                assert(p.skip(at as int)[0] == p[at as int]);
                assert(p.skip(at as int)[1] == p[at as int + 1]);
                assert(p.skip(at as int).skip(2) =~= p.skip(at as int + 2));
                assert(placeholder_count(p.skip(at as int)) >= 1);
            }
            let ghost res0 = res@;
            res.append(pattern.substring_char(start, at));
            let a: &str = args[j];
            res.append(a);
            proof {
                assert(a@ == views[j as int]);
                assert(views.skip(j as int)[0] == views[j as int]);
                assert(views.skip(j as int).skip(1) =~= views.skip(j as int + 1));
                assert(substituted(p.skip(at as int), views.skip(j as int)) == views[j as int]
                    + substituted(p.skip(at as int + 2), views.skip(j as int + 1)));
                assert(res@ + substituted(p.skip(at as int + 2), views.skip(j as int + 1)) =~= (
                res0 + p.subrange(start as int, at as int)) + substituted(
                    p.skip(at as int),
                    views.skip(j as int),
                ));
            }
            j = j + 1;
            at = at + 2;
            start = at;
            proof {
                assert(p.subrange(start as int, at as int) =~= Seq::<char>::empty());
                assert(res@ + p.subrange(start as int, at as int) =~= res@);
            }
        } else {
            proof {
                assert(p.skip(at as int).skip(1) =~= p.skip(at as int + 1));
                if p.skip(at as int).len() >= 2 {
                    assert(p.skip(at as int)[0] == p[at as int]);
                    assert(p.skip(at as int)[1] == p[at as int + 1]);
                    assert(substituted(p.skip(at as int), views.skip(j as int)) == seq![
                        p[at as int],
                    ] + substituted(p.skip(at as int + 1), views.skip(j as int)));
                } else {
                    assert(p.skip(at as int) =~= seq![p[at as int]]);
                    assert(p.skip(at as int + 1) =~= Seq::<char>::empty());
                    assert(substituted(p.skip(at as int + 1), views.skip(j as int))
                        =~= Seq::<char>::empty());
                }
                assert(p.skip(at as int).skip(1) =~= p.skip(at as int + 1));
                assert(p.subrange(start as int, at as int) + seq![p[at as int]] =~= p.subrange(
                    start as int,
                    at as int + 1,
                ));
                assert(res@ + p.subrange(start as int, at as int + 1) + substituted(
                    p.skip(at as int + 1),
                    views.skip(j as int),
                ) =~= res@ + p.subrange(start as int, at as int) + substituted(
                    p.skip(at as int),
                    views.skip(j as int),
                ));
            }
            at = at + 1;
        }
    }
    let ghost res1 = res@;
    res.append(pattern.substring_char(start, n));
    proof {
        assert(p.skip(n as int) =~= Seq::<char>::empty());
        assert(substituted(p.skip(n as int), views.skip(j as int)) =~= Seq::<char>::empty());
        assert(res@ =~= res1 + p.subrange(start as int, n as int) + substituted(
            p.skip(n as int),
            views.skip(j as int),
        ));
        if placeholder_count(p) == 0 && args@.len() == 0 {
            lemma_format_no_placeholders_unchanged(p, views);
        }
    }
    res
}

} // verus!
