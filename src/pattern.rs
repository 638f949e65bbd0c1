//! Android's simple-glob path patterns (`PatternMatcher.PATTERN_SIMPLE_GLOB`).
//!
//! The platform walks pattern and path once, left to right, without
//! backtracking. The walk is reproduced exactly, including its surprising
//! answers: `.*` followed by a literal jumps to the first occurrence of that
//! literal and never reconsiders, and an escaped `.` still matches any
//! character.

use vstd::prelude::*;
use crate::text::{chars_of, find_from};

verus! {

/// The character at `i`, or NUL past either end.
pub open spec fn char_at(s: Seq<char>, i: int) -> char {
    if 0 <= i < s.len() {
        s[i]
    } else {
        '\0'
    }
}

/// The first position at or after `i` whose character is not `c`.
pub open spec fn run_end(s: Seq<char>, c: char, i: int) -> int
    decreases s.len() - i,
{
    if 0 <= i < s.len() && s[i] == c {
        run_end(s, c, i + 1)
    } else {
        i
    }
}

/// The outcome of the walk from pattern position `ip` and path position `im`.
///
/// Each step reads one pattern token `c` (two characters when it is escaped
/// with a backslash) and looks at the character after it:
/// - `.` then `*`, at the end of the pattern: the walk succeeds;
/// - `.` then `*` then a literal `t`: the path jumps past the first `t` at or
///   after `im`, and the walk fails if there is none;
/// - any other `c` then `*`: the path skips a run of `c`;
/// - otherwise the path character at `im` must be `c`, unless `c` is `.`,
///   which matches any character even when escaped.
/// When either side runs out, the walk succeeds if both did, or if the path
/// did and exactly `.*` is left of the pattern.
pub open spec fn walk(pat: Seq<char>, path: Seq<char>, ip: int, im: int) -> bool
    decreases pat.len() + 2 - ip,
{
    if ip < 0 || im < 0 {
        false
    } else if ip >= pat.len() || im >= path.len() {
        (ip >= pat.len() && im >= path.len()) || (ip == pat.len() - 2 && pat[ip] == '.' && pat[ip
            + 1] == '*')
    } else {
        let escaped = pat[ip] == '\\';
        let c = if escaped {
            char_at(pat, ip + 1)
        } else {
            pat[ip]
        };
        let after = if escaped {
            ip + 2
        } else {
            ip + 1
        };
        if char_at(pat, after) == '*' {
            if !escaped && c == '.' {
                if after >= pat.len() - 1 {
                    true
                } else {
                    let t = after + 1;
                    let escaped_target = pat[t] == '\\';
                    let target = if escaped_target {
                        char_at(pat, t + 1)
                    } else {
                        pat[t]
                    };
                    let next = if escaped_target {
                        t + 2
                    } else {
                        t + 1
                    };
                    let k = find_from(path, target, im);
                    if k >= path.len() {
                        false
                    } else {
                        walk(pat, path, next, k + 1)
                    }
                }
            } else {
                walk(pat, path, after + 1, run_end(path, c, im))
            }
        } else if c != '.' && path[im] != c {
            false
        } else {
            walk(pat, path, after, im + 1)
        }
    }
}

/// Whether Android accepts `path` for the simple-glob `pattern`.
pub open spec fn pattern_matches(pattern: Seq<char>, path: Seq<char>) -> bool {
    walk(pattern, path, 0, 0)
}

fn char_at_exec(v: &Vec<char>, i: usize) -> (r: char)
    ensures
        r == char_at(v@, i as int),
{
    if i < v.len() {
        v[i]
    } else {
        '\0'
    }
}

/// Android's single-pass match of `path` against the simple-glob `pattern`.
pub fn match_pattern(path: &str, pattern: &str) -> (r: bool)
    ensures
        r == pattern_matches(pattern@, path@),
{
    let pat = chars_of(pattern);
    let s = chars_of(path);
    let np = pat.len();
    let nm = s.len();
    if np == 0 {
        return nm == 0;
    }
    let ghost goal = walk(pat@, s@, 0, 0);
    let mut ip: usize = 0;
    let mut im: usize = 0;
    let mut next_char = pat[0];
    while ip < np && im < nm
        invariant
            np == pat@.len(),
            nm == s@.len(),
            np > 0,
            ip <= np,
            im <= nm,
            next_char == char_at(pat@, ip as int),
            walk(pat@, s@, ip as int, im as int) == goal,
            goal == walk(pat@, s@, 0, 0),
            pat@ == pattern@,
            s@ == path@,
        decreases np + 2 - ip,
    {
        let ghost ip0 = ip as int;
        let ghost im0 = im as int;
        let mut c = next_char;
        ip += 1;
        next_char = char_at_exec(&pat, ip);
        let escaped = c == '\\';
        if escaped {
            c = next_char;
            // Past the end every position reads as NUL and ends the walk, so
            // the position stays at the end rather than one past it.
            if ip < np {
                ip += 1;
            }
            next_char = char_at_exec(&pat, ip);
        }
        if next_char == '*' {
            if !escaped && c == '.' {
                if ip >= np - 1 {
                    return true;
                }
                ip += 1;
                next_char = pat[ip];
                if next_char == '\\' {
                    ip += 1;
                    next_char = char_at_exec(&pat, ip);
                }
                let ghost k = find_from(s@, next_char, im as int);
                let ghost spec_next = if pat@[ip0 + 2] == '\\' { ip0 + 4 } else { ip0 + 3 };
                assert(walk(pat@, s@, ip0, im0) == if k >= nm {
                    false
                } else {
                    walk(pat@, s@, spec_next, k + 1)
                });
                while im < nm && s[im] != next_char
                    invariant
                        nm == s@.len(),
                        im0 <= im <= nm,
                        find_from(s@, next_char, im as int) == k,
                    decreases nm - im,
                {
                    im += 1;
                }
                if im >= nm {
                    return false;
                }
                if ip < np {
                    ip += 1;
                }
                next_char = char_at_exec(&pat, ip);
                im += 1;
                assert(walk(pat@, s@, spec_next, k + 1) == walk(pat@, s@, ip as int, im as int));
            } else {
                let ghost k = run_end(s@, c, im as int);
                while im < nm && s[im] == c
                    invariant
                        nm == s@.len(),
                        im0 <= im <= nm,
                        run_end(s@, c, im as int) == k,
                    decreases nm - im,
                {
                    im += 1;
                }
                ip += 1;
                next_char = char_at_exec(&pat, ip);
            }
        } else {
            if c != '.' && s[im] != c {
                return false;
            }
            im += 1;
            let ghost after = if escaped { ip0 + 2 } else { ip0 + 1 };
            assert(walk(pat@, s@, ip0, im0) == walk(pat@, s@, after, im0 + 1));
            assert(walk(pat@, s@, after, im0 + 1) == walk(pat@, s@, ip as int, im as int));
        }
    }
    if ip >= np && im >= nm {
        return true;
    }
    np >= 2 && ip == np - 2 && pat[ip] == '.' && pat[ip + 1] == '*'
}

} // verus!
