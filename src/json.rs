//! The wire shape of a request body: a JSON object whose members are all
//! string-valued, read one character at a time by a small state machine.
use vstd::prelude::*;

verus! {

/// Where the scanner stands inside an object.
#[derive(PartialEq, Eq, Structural, Clone, Copy, Debug)]
pub enum Phase {
    /// Before the opening brace.
    Open,
    /// Just after the opening brace: a key or the closing brace.
    KeyOrClose,
    /// After a comma: a key.
    Key,
    /// Inside a key literal.
    InKey,
    /// After a backslash inside a key literal.
    KeyEscape,
    /// After a key: the colon.
    Colon,
    /// After the colon: a value literal.
    Value,
    /// Inside a value literal.
    InValue,
    /// After a backslash inside a value literal.
    ValueEscape,
    /// After a member: a comma or the closing brace.
    CommaOrClose,
    /// After the closing brace: only whitespace may follow.
    Closed,
}

/// The scanner's state as plain values: the phase, the key and value read so
/// far, and the members completed so far in input order.
pub struct ScanState {
    pub phase: Phase,
    pub key: Seq<char>,
    pub value: Seq<char>,
    pub members: Seq<(Seq<char>, Seq<char>)>,
}

pub open spec fn is_ws(c: char) -> bool {
    c == ' ' || c == '\t' || c == '\n' || c == '\r'
}

pub open spec fn is_control(c: char) -> bool {
    (c as u32) < 0x20
}

/// The character that a backslash followed by `c` stands for.
pub open spec fn escaped(c: char) -> Option<char> {
    if c == '"' {
        Some('"')
    } else if c == '\\' {
        Some('\\')
    } else if c == '/' {
        Some('/')
    } else if c == 'b' {
        Some('\x08')
    } else if c == 'f' {
        Some('\x0c')
    } else if c == 'n' {
        Some('\n')
    } else if c == 'r' {
        Some('\r')
    } else if c == 't' {
        Some('\t')
    } else {
        None
    }
}

pub open spec fn with_phase(st: ScanState, p: Phase) -> ScanState {
    ScanState { phase: p, ..st }
}

/// One character of input: the next state, or `None` where the character
/// cannot stand there.
pub open spec fn step(st: ScanState, c: char) -> Option<ScanState> {
    match st.phase {
        Phase::Open => if is_ws(c) {
            Some(st)
        } else if c == '{' {
            Some(with_phase(st, Phase::KeyOrClose))
        } else {
            None
        },
        Phase::KeyOrClose => if is_ws(c) {
            Some(st)
        } else if c == '"' {
            Some(ScanState { phase: Phase::InKey, key: seq![], ..st })
        } else if c == '}' {
            Some(with_phase(st, Phase::Closed))
        } else {
            None
        },
        Phase::Key => if is_ws(c) {
            Some(st)
        } else if c == '"' {
            Some(ScanState { phase: Phase::InKey, key: seq![], ..st })
        } else {
            None
        },
        Phase::InKey => if c == '"' {
            Some(with_phase(st, Phase::Colon))
        } else if c == '\\' {
            Some(with_phase(st, Phase::KeyEscape))
        } else if is_control(c) {
            None
        } else {
            Some(ScanState { key: st.key.push(c), ..st })
        },
        Phase::KeyEscape => match escaped(c) {
            Some(e) => Some(ScanState { phase: Phase::InKey, key: st.key.push(e), ..st }),
            None => None,
        },
        Phase::Colon => if is_ws(c) {
            Some(st)
        } else if c == ':' {
            Some(with_phase(st, Phase::Value))
        } else {
            None
        },
        Phase::Value => if is_ws(c) {
            Some(st)
        } else if c == '"' {
            Some(ScanState { phase: Phase::InValue, value: seq![], ..st })
        } else {
            None
        },
        Phase::InValue => if c == '"' {
            Some(
                ScanState {
                    phase: Phase::CommaOrClose,
                    key: seq![],
                    value: seq![],
                    members: st.members.push((st.key, st.value)),
                },
            )
        } else if c == '\\' {
            Some(with_phase(st, Phase::ValueEscape))
        } else if is_control(c) {
            None
        } else {
            Some(ScanState { value: st.value.push(c), ..st })
        },
        Phase::ValueEscape => match escaped(c) {
            Some(e) => Some(ScanState { phase: Phase::InValue, value: st.value.push(e), ..st }),
            None => None,
        },
        Phase::CommaOrClose => if is_ws(c) {
            Some(st)
        } else if c == ',' {
            Some(with_phase(st, Phase::Key))
        } else if c == '}' {
            Some(with_phase(st, Phase::Closed))
        } else {
            None
        },
        Phase::Closed => if is_ws(c) {
            Some(st)
        } else {
            None
        },
    }
}

/// The state after reading `s` from position `i` on, starting in `st`.
pub open spec fn scan_from(s: Seq<char>, i: nat, st: ScanState) -> Option<ScanState>
    decreases s.len() - i,
{
    if i >= s.len() {
        Some(st)
    } else {
        match step(st, s[i as int]) {
            Some(next) => scan_from(s, i + 1, next),
            None => None,
        }
    }
}

pub open spec fn initial_state() -> ScanState {
    ScanState { phase: Phase::Open, key: seq![], value: seq![], members: seq![] }
}

/// The members of the object that `s` spells, in input order, or `None`
/// where `s` is not such an object.
pub open spec fn object_members(s: Seq<char>) -> Option<Seq<(Seq<char>, Seq<char>)>> {
    match scan_from(s, 0, initial_state()) {
        Some(st) => if st.phase == Phase::Closed {
            Some(st.members)
        } else {
            None
        },
        None => None,
    }
}

/// One member of an object: a key and its string value.
pub struct Member {
    pub key: Vec<char>,
    pub value: Vec<char>,
}

impl View for Member {
    type V = (Seq<char>, Seq<char>);

    open spec fn view(&self) -> (Seq<char>, Seq<char>) {
        (self.key@, self.value@)
    }
}

pub open spec fn members_view(ms: Seq<Member>) -> Seq<(Seq<char>, Seq<char>)> {
    ms.map_values(|m: Member| m@)
}

struct Scanner {
    phase: Phase,
    key: Vec<char>,
    value: Vec<char>,
    members: Vec<Member>,
}

impl Scanner {
    spec fn state(&self) -> ScanState {
        ScanState {
            phase: self.phase,
            key: self.key@,
            value: self.value@,
            members: members_view(self.members@),
        }
    }

    fn is_ws(c: char) -> (r: bool)
        ensures
            r == is_ws(c),
    {
        c == ' ' || c == '\t' || c == '\n' || c == '\r'
    }

    fn is_control(c: char) -> (r: bool)
        ensures
            r == is_control(c),
    {
        (c as u32) < 0x20
    }

    fn escaped(c: char) -> (r: Option<char>)
        ensures
            r == escaped(c),
    {
        if c == '"' {
            Some('"')
        } else if c == '\\' {
            Some('\\')
        } else if c == '/' {
            Some('/')
        } else if c == 'b' {
            Some('\x08')
        } else if c == 'f' {
            Some('\x0c')
        } else if c == 'n' {
            Some('\n')
        } else if c == 'r' {
            Some('\r')
        } else if c == 't' {
            Some('\t')
        } else {
            None
        }
    }

    /// Reads one character; `false` where `step` refuses it, and then the
    /// scanner is left in no particular state.
    fn advance(&mut self, c: char) -> (ok: bool)
        ensures
            ok == step(old(self).state(), c) is Some,
            ok ==> final(self).state() == step(old(self).state(), c)->Some_0,
    {
        let ws = Scanner::is_ws(c);
        match self.phase {
            Phase::Open => if ws {
                true
            } else if c == '{' {
                self.phase = Phase::KeyOrClose;
                true
            } else {
                false
            },
            Phase::KeyOrClose => if ws {
                true
            } else if c == '"' {
                self.phase = Phase::InKey;
                self.key = Vec::new();
                true
            } else if c == '}' {
                self.phase = Phase::Closed;
                true
            } else {
                false
            },
            Phase::Key => if ws {
                true
            } else if c == '"' {
                self.phase = Phase::InKey;
                self.key = Vec::new();
                true
            } else {
                false
            },
            Phase::InKey => if c == '"' {
                self.phase = Phase::Colon;
                true
            } else if c == '\\' {
                self.phase = Phase::KeyEscape;
                true
            } else if Scanner::is_control(c) {
                false
            } else {
                self.key.push(c);
                true
            },
            Phase::KeyEscape => match Scanner::escaped(c) {
                Some(e) => {
                    self.phase = Phase::InKey;
                    self.key.push(e);
                    true
                },
                None => false,
            },
            Phase::Colon => if ws {
                true
            } else if c == ':' {
                self.phase = Phase::Value;
                true
            } else {
                false
            },
            Phase::Value => if ws {
                true
            } else if c == '"' {
                self.phase = Phase::InValue;
                self.value = Vec::new();
                true
            } else {
                false
            },
            Phase::InValue => if c == '"' {
                let mut key = Vec::new();
                let mut value = Vec::new();
                std::mem::swap(&mut key, &mut self.key);
                std::mem::swap(&mut value, &mut self.value);
                let ghost before = members_view(self.members@);
                self.members.push(Member { key, value });
                assert(members_view(self.members@) =~= before.push((key@, value@)));
                self.phase = Phase::CommaOrClose;
                true
            } else if c == '\\' {
                self.phase = Phase::ValueEscape;
                true
            } else if Scanner::is_control(c) {
                false
            } else {
                self.value.push(c);
                true
            },
            Phase::ValueEscape => match Scanner::escaped(c) {
                Some(e) => {
                    self.phase = Phase::InValue;
                    self.value.push(e);
                    true
                },
                None => false,
            },
            Phase::CommaOrClose => if ws {
                true
            } else if c == ',' {
                self.phase = Phase::Key;
                true
            } else if c == '}' {
                self.phase = Phase::Closed;
                true
            } else {
                false
            },
            Phase::Closed => ws,
        }
    }
}

/// The members of the object that `s` spells, in input order; `None` where
/// `s` is not an object whose member values are all strings.
pub fn parse_object(s: &Vec<char>) -> (r: Option<Vec<Member>>)
    ensures
        match object_members(s@) {
            Some(ms) => r is Some && members_view(r->Some_0@) == ms,
            None => r is None,
        },
{
    let mut sc = Scanner { phase: Phase::Open, key: Vec::new(), value: Vec::new(), members: Vec::new() };
    assert(members_view(sc.members@) =~= seq![]);
    let mut i: usize = 0;
    while i < s.len()
        invariant
            i <= s.len(),
            scan_from(s@, 0, initial_state()) == scan_from(s@, i as nat, sc.state()),
        decreases s.len() - i,
    {
        if !sc.advance(s[i]) {
            return None;
        }
        i += 1;
    }
    if sc.phase == Phase::Closed {
        Some(sc.members)
    } else {
        None
    }
}

} // verus!
