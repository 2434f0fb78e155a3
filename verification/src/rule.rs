//! Parsing of life-like rule strings.
//!
//! A rule string has the shape `B<digits>/S<digits>` where every digit is
//! between 1 and 8: `born` digits name the live-neighbor counts that bring a
//! dead cell to life, `stay_alive` digits the counts that keep a live cell
//! alive.  A digit `0`, any character outside the pattern, or a missing part
//! rejects the whole string.  Repeated digits are permitted and simply set
//! the same flag again.

use vstd::prelude::*;

verus! {

use vstd::string::StringSliceAdditionalSpecFns;

/// `'B'`
pub const BYTE_B: u8 = 66;

/// `'/'`
pub const BYTE_SLASH: u8 = 47;

/// `'S'`
pub const BYTE_S: u8 = 83;

/// `'0'`
pub const BYTE_ZERO: u8 = 48;

/// The membership tables of a parsed rule, laid out as the kernel's uniform
/// buffer expects them: entry `i` covers neighbor count `i + 1`, and a flag
/// is `1` when the count is named in the rule string, `0` otherwise.
#[derive(Clone, Copy, Debug)]
pub struct Rule {
    pub born: [u32; 8],
    pub stay_alive: [u32; 8],
}

#[derive(Clone, Copy, Debug, PartialEq, Eq, Structural)]
pub enum RuleCreationError {
    InvalidRuleString,
}

/// A byte standing for a neighbor-count digit between 1 and 8.
pub open spec fn is_rule_digit(b: u8) -> bool {
    BYTE_ZERO + 1 <= b <= BYTE_ZERO + 8
}

/// `s` has the shape `B<digits>/S<digits>` with the `/` at index `k`.
pub open spec fn rule_shape(s: Seq<u8>, k: int) -> bool {
    &&& 2 <= k
    &&& k + 2 < s.len()
    &&& s[0] == BYTE_B
    &&& s[k] == BYTE_SLASH
    &&& s[k + 1] == BYTE_S
    &&& forall|i: int| 1 <= i < k ==> is_rule_digit(#[trigger] s[i])
    &&& forall|i: int| k + 2 <= i < s.len() ==> is_rule_digit(#[trigger] s[i])
}

/// `s` is a well-formed rule string.
pub open spec fn valid_rule(s: Seq<u8>) -> bool {
    exists|k: int| rule_shape(s, k)
}

/// The index of the `/` of a well-formed rule string.
pub open spec fn slash_pos(s: Seq<u8>) -> int {
    choose|k: int| rule_shape(s, k)
}

/// Neighbor count `d` is named in the born part of `s`.
pub open spec fn born_contains(s: Seq<u8>, d: int) -> bool {
    exists|i: int| 1 <= i < slash_pos(s) && s[i] == BYTE_ZERO + d
}

/// Neighbor count `d` is named in the stay-alive part of `s`.
pub open spec fn survive_contains(s: Seq<u8>, d: int) -> bool {
    exists|i: int| slash_pos(s) + 2 <= i < s.len() && s[i] == BYTE_ZERO + d
}

/// A well-formed rule string has exactly one index that can carry its `/`.
pub proof fn lemma_slash_pos_unique(s: Seq<u8>, k1: int, k2: int)
    requires
        rule_shape(s, k1),
        rule_shape(s, k2),
    ensures
        k1 == k2,
{
    if k1 < k2 {
        assert(is_rule_digit(s[k1]));
    }
    if k2 < k1 {
        assert(is_rule_digit(s[k2]));
    }
}

impl Rule {
    /// Parse a rule string; returns the membership tables exactly when the
    /// string is well-formed, and `InvalidRuleString` otherwise.
    pub fn from_rule_str(rstr: &str) -> (r: Result<Rule, RuleCreationError>)
        ensures
            r is Ok <==> valid_rule(rstr.spec_bytes()),
            match r {
                Ok(rule) => {
                    &&& forall|d: int|
                        1 <= d <= 8 ==> #[trigger] rule.born@[d - 1] == (
                        if born_contains(rstr.spec_bytes(), d) {
                            1u32
                        } else {
                            0u32
                        })
                    &&& forall|d: int|
                        1 <= d <= 8 ==> #[trigger] rule.stay_alive@[d - 1] == (
                        if survive_contains(rstr.spec_bytes(), d) {
                            1u32
                        } else {
                            0u32
                        })
                },
                Err(e) => e == RuleCreationError::InvalidRuleString,
            },
    {
        let b = rstr.as_bytes();
        let ghost s = rstr.spec_bytes();
        let n = b.len();
        if n == 0 || b[0] != BYTE_B {
            proof {
                assert forall|k: int| !rule_shape(s, k) by {}
            }
            return Err(RuleCreationError::InvalidRuleString);
        }
        let mut i: usize = 1;
        while i < n && BYTE_ZERO + 1 <= b[i] && b[i] <= BYTE_ZERO + 8
            invariant
                1 <= i <= n,
                n == s.len(),
                b@ == s,
                forall|j: int| 1 <= j < i ==> is_rule_digit(#[trigger] s[j]),
            decreases n - i,
        {
            i = i + 1;
        }
        // Positions 1..i are digits; either i == n or b[i] is not a digit.
        if i < 2 {
            // No born digit: index 1 would have to be one.
            proof {
                assert forall|k: int| !rule_shape(s, k) by {
                    if rule_shape(s, k) {
                        assert(is_rule_digit(s[1]));
                    }
                }
            }
            return Err(RuleCreationError::InvalidRuleString);
        }
        if i == n || b[i] != BYTE_SLASH {
            proof {
                assert forall|k: int| !rule_shape(s, k) by {
                    if rule_shape(s, k) {
                        if k < i {
                            assert(is_rule_digit(s[k]));
                        } else if k > i {
                            assert(is_rule_digit(s[i as int]));
                        }
                    }
                }
            }
            return Err(RuleCreationError::InvalidRuleString);
        }
        // b[i] == '/'; the survive part must start with 'S' and hold at
        // least one digit.
        proof {
            assert forall|k: int| rule_shape(s, k) implies k == i by {
                if k < i {
                    assert(is_rule_digit(s[k]));
                } else if k > i {
                    assert(is_rule_digit(s[i as int]));
                }
            }
        }
        if i + 1 >= n || b[i + 1] != BYTE_S || i + 2 >= n {
            proof {
                assert forall|k: int| !rule_shape(s, k) by {}
            }
            return Err(RuleCreationError::InvalidRuleString);
        }
        let mut j: usize = i + 2;
        while j < n
            invariant
                2 <= i,
                i + 2 <= j <= n,
                n == s.len(),
                b@ == s,
                s == rstr.spec_bytes(),
                s[i as int] == BYTE_SLASH,
                forall|m: int| 1 <= m < i ==> is_rule_digit(#[trigger] s[m]),
                forall|m: int| i + 2 <= m < j ==> is_rule_digit(#[trigger] s[m]),
            decreases n - j,
        {
            if b[j] < BYTE_ZERO + 1 || b[j] > BYTE_ZERO + 8 {
                proof {
                    assert forall|k: int| !rule_shape(s, k) by {
                        if rule_shape(s, k) {
                            if k < i {
                                assert(is_rule_digit(s[k]));
                            } else if k > i {
                                assert(is_rule_digit(s[i as int]));
                            }
                            assert(k == i);
                            assert(is_rule_digit(s[j as int]));
                        }
                    }
                }
                return Err(RuleCreationError::InvalidRuleString);
            }
            j = j + 1;
        }
        proof {
            assert(rule_shape(s, i as int));
            lemma_slash_pos_unique(s, slash_pos(s), i as int);
            assert(slash_pos(s) == i as int);
        }
        let born = [
            region_has(b, 1, i, BYTE_ZERO + 1),
            region_has(b, 1, i, BYTE_ZERO + 2),
            region_has(b, 1, i, BYTE_ZERO + 3),
            region_has(b, 1, i, BYTE_ZERO + 4),
            region_has(b, 1, i, BYTE_ZERO + 5),
            region_has(b, 1, i, BYTE_ZERO + 6),
            region_has(b, 1, i, BYTE_ZERO + 7),
            region_has(b, 1, i, BYTE_ZERO + 8),
        ];
        let stay_alive = [
            region_has(b, i + 2, n, BYTE_ZERO + 1),
            region_has(b, i + 2, n, BYTE_ZERO + 2),
            region_has(b, i + 2, n, BYTE_ZERO + 3),
            region_has(b, i + 2, n, BYTE_ZERO + 4),
            region_has(b, i + 2, n, BYTE_ZERO + 5),
            region_has(b, i + 2, n, BYTE_ZERO + 6),
            region_has(b, i + 2, n, BYTE_ZERO + 7),
            region_has(b, i + 2, n, BYTE_ZERO + 8),
        ];
        Ok(Rule { born, stay_alive })
    }
}

/// `1` when `target` occurs in `b[lo..hi]`, `0` otherwise.
fn region_has(b: &[u8], lo: usize, hi: usize, target: u8) -> (r: u32)
    requires
        lo <= hi <= b@.len(),
    ensures
        r == (if exists|i: int| lo <= i < hi && b@[i] == target {
            1u32
        } else {
            0u32
        }),
{
    let mut i = lo;
    while i < hi
        invariant
            lo <= i <= hi <= b@.len(),
            forall|m: int| lo <= m < i ==> b@[m] != target,
        decreases hi - i,
    {
        if b[i] == target {
            return 1;
        }
        i = i + 1;
    }
    0
}

} // verus!

