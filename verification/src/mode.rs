//! The four ways in which the groups of a match become a point.

use vstd::prelude::*;

verus! {

/// How a match of the primary pattern is turned into an `(x, y)` pair. The
/// mode is chosen once, when the program starts, and never changes.
#[derive(Clone, Copy, Debug, PartialEq, Eq, Structural)]
pub enum CaptureMode {
    /// `x` is the number of lines captured so far, `y` the first group.
    YFromFirstGroup,
    /// `x` is the first group, `y` the number of lines captured so far.
    XFromFirstGroup,
    /// `x` is the first group, `y` the second.
    XYFromTwoGroups,
    /// `x` is the second group, `y` the first.
    YXFromTwoGroups,
}

impl CaptureMode {
    /// The mode that a selector stands for: `1`, `-1`, `12` and `21` name the
    /// four modes, in the order of their declaration; nothing else is a
    /// selector.
    pub open spec fn of_token(token: Seq<char>) -> Option<CaptureMode> {
        if token == seq!['1'] {
            Some(CaptureMode::YFromFirstGroup)
        } else if token == seq!['-', '1'] {
            Some(CaptureMode::XFromFirstGroup)
        } else if token == seq!['1', '2'] {
            Some(CaptureMode::XYFromTwoGroups)
        } else if token == seq!['2', '1'] {
            Some(CaptureMode::YXFromTwoGroups)
        } else {
            None
        }
    }

    /// The selector of a mode.
    pub open spec fn token_of(self) -> Seq<char> {
        match self {
            CaptureMode::YFromFirstGroup => seq!['1'],
            CaptureMode::XFromFirstGroup => seq!['-', '1'],
            CaptureMode::XYFromTwoGroups => seq!['1', '2'],
            CaptureMode::YXFromTwoGroups => seq!['2', '1'],
        }
    }

    /// Whether the mode reads two groups of the match, and so asks that the
    /// pattern has exactly two.
    pub open spec fn needs_two_groups(self) -> bool {
        self == CaptureMode::XYFromTwoGroups || self == CaptureMode::YXFromTwoGroups
    }

    /// Resolves a selector. `None` means that the selector is not known.
    pub fn from_token(token: &str) -> (mode: Option<CaptureMode>)
        ensures
            mode == Self::of_token(token@),
    {
        let n: usize = token.unicode_len();
        if n == 1 {
            let c0 = token.get_char(0);
            if c0 == '1' {
                assert(token@ =~= seq!['1']);
                return Some(CaptureMode::YFromFirstGroup);
            }
            assert(token@[0] != '1');
            None
        } else if n == 2 {
            let c0 = token.get_char(0);
            let c1 = token.get_char(1);
            if c0 == '-' && c1 == '1' {
                assert(token@ =~= seq!['-', '1']);
                Some(CaptureMode::XFromFirstGroup)
            } else if c0 == '1' && c1 == '2' {
                assert(token@ =~= seq!['1', '2']);
                Some(CaptureMode::XYFromTwoGroups)
            } else if c0 == '2' && c1 == '1' {
                assert(token@ =~= seq!['2', '1']);
                Some(CaptureMode::YXFromTwoGroups)
            } else {
                assert(token@[0] != '-' || token@[1] != '1');
                assert(token@[0] != '1' || token@[1] != '2');
                assert(token@[0] != '2' || token@[1] != '1');
                None
            }
        } else {
            None
        }
    }

    /// The selector that resolves to this mode.
    pub fn token(&self) -> (text: &'static str)
        ensures
            text@ == self.token_of(),
    {
        match self {
            CaptureMode::YFromFirstGroup => {
                proof {
                    reveal_strlit("1");
                }
                assert("1"@ =~= seq!['1']);
                "1"
            },
            CaptureMode::XFromFirstGroup => {
                proof {
                    reveal_strlit("-1");
                }
                assert("-1"@ =~= seq!['-', '1']);
                "-1"
            },
            CaptureMode::XYFromTwoGroups => {
                proof {
                    reveal_strlit("12");
                }
                assert("12"@ =~= seq!['1', '2']);
                "12"
            },
            CaptureMode::YXFromTwoGroups => {
                proof {
                    reveal_strlit("21");
                }
                assert("21"@ =~= seq!['2', '1']);
                "21"
            },
        }
    }

    /// Whether the mode reads two groups of the match.
    pub fn takes_two_groups(&self) -> (two: bool)
        ensures
            two == self.needs_two_groups(),
    {
        match self {
            CaptureMode::YFromFirstGroup => false,
            CaptureMode::XFromFirstGroup => false,
            CaptureMode::XYFromTwoGroups => true,
            CaptureMode::YXFromTwoGroups => true,
        }
    }
}

impl Default for CaptureMode {
    /// The mode used where no selector is given: that of the selector `1`.
    fn default() -> (mode: CaptureMode)
        ensures
            mode == CaptureMode::YFromFirstGroup,
    {
        CaptureMode::YFromFirstGroup
    }
}

/// Every mode is resolved from its own selector, so the selectors tell the
/// modes apart.
pub proof fn lemma_token_round_trip(mode: CaptureMode)
    ensures
        CaptureMode::of_token(mode.token_of()) == Some(mode),
{
    assert(seq!['-', '1'][0] != seq!['1'][0] || seq!['-', '1'].len() != seq!['1'].len());
    assert(seq!['-', '1'].len() == 2 && seq!['1'].len() == 1);
    assert(seq!['1', '2'].len() == 2 && seq!['2', '1'].len() == 2);
    assert(seq!['1', '2'][0] == '1' && seq!['-', '1'][0] == '-' && seq!['2', '1'][0] == '2');
}

} // verus!
