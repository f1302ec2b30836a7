//! Command records, as a G-code tokenizer hands them over.

use vstd::prelude::*;

verus! {

/// Coordinates and parameter values are fixed-point: one G-code unit is this
/// many steps.
pub const STEPS_PER_UNIT: i64 = 1000;

/// The letter that a command word starts with.
#[derive(Clone, Copy, Debug, PartialEq, Eq, Structural)]
pub enum CommandGroup {
    /// `G`: motion and modes.
    General,
    /// `M`: machine functions.
    Miscellaneous,
    /// `O`: program numbers.
    ProgramNumber,
    /// `T`: tool changes.
    ToolChange,
}

/// One command: its group, its major number and the values of the letters
/// the interpreter reads, in steps.
#[derive(Clone, Copy, Debug, PartialEq, Eq, Structural)]
pub struct CommandRecord {
    pub group: CommandGroup,
    pub major: u32,
    pub x: Option<i64>,
    pub y: Option<i64>,
    pub z: Option<i64>,
    pub e: Option<i64>,
    pub i: Option<i64>,
    pub j: Option<i64>,
    pub r: Option<i64>,
}

/// The place of a letter that the interpreter reads, in either case, among
/// `x y z e i j r`; `-1` for any other.
pub open spec fn letter_slot(l: char) -> int {
    if l == 'x' || l == 'X' {
        0
    } else if l == 'y' || l == 'Y' {
        1
    } else if l == 'z' || l == 'Z' {
        2
    } else if l == 'e' || l == 'E' {
        3
    } else if l == 'i' || l == 'I' {
        4
    } else if l == 'j' || l == 'J' {
        5
    } else if l == 'r' || l == 'R' {
        6
    } else {
        -1
    }
}

impl CommandRecord {
    /// The value given for `letter`, in either case; none for letters that the
    /// interpreter does not read.
    pub open spec fn spec_value_for(self, letter: char) -> Option<i64> {
        let k = letter_slot(letter);
        if k == 0 {
            self.x
        } else if k == 1 {
            self.y
        } else if k == 2 {
            self.z
        } else if k == 3 {
            self.e
        } else if k == 4 {
            self.i
        } else if k == 5 {
            self.j
        } else if k == 6 {
            self.r
        } else {
            None
        }
    }

    /// A command of `group` with major number `major` and no values.
    pub fn new(group: CommandGroup, major: u32) -> (c: CommandRecord)
        ensures
            c.group == group,
            c.major == major,
            forall|l: char| #[trigger] c.spec_value_for(l) == None::<i64>,
    {
        CommandRecord {
            group,
            major,
            x: None,
            y: None,
            z: None,
            e: None,
            i: None,
            j: None,
            r: None,
        }
    }

    /// The value given for `letter`, in either case.
    pub fn value_for(&self, letter: char) -> (v: Option<i64>)
        ensures
            v == self.spec_value_for(letter),
    {
        if letter == 'x' || letter == 'X' {
            self.x
        } else if letter == 'y' || letter == 'Y' {
            self.y
        } else if letter == 'z' || letter == 'Z' {
            self.z
        } else if letter == 'e' || letter == 'E' {
            self.e
        } else if letter == 'i' || letter == 'I' {
            self.i
        } else if letter == 'j' || letter == 'J' {
            self.j
        } else if letter == 'r' || letter == 'R' {
            self.r
        } else {
            None
        }
    }

    /// This command with `value` given for `letter`, in either case; unchanged
    /// for a letter that the interpreter does not read.
    pub fn with_value(self, letter: char, value: i64) -> (c: CommandRecord)
        ensures
            c.group == self.group,
            c.major == self.major,
            forall|l: char|
                #[trigger] c.spec_value_for(l) == if letter_slot(l) >= 0 && letter_slot(l)
                    == letter_slot(letter) {
                    Some(value)
                } else {
                    self.spec_value_for(l)
                },
    {
        let mut c = self;
        if letter == 'x' || letter == 'X' {
            c.x = Some(value);
        } else if letter == 'y' || letter == 'Y' {
            c.y = Some(value);
        } else if letter == 'z' || letter == 'Z' {
            c.z = Some(value);
        } else if letter == 'e' || letter == 'E' {
            c.e = Some(value);
        } else if letter == 'i' || letter == 'I' {
            c.i = Some(value);
        } else if letter == 'j' || letter == 'J' {
            c.j = Some(value);
        } else if letter == 'r' || letter == 'R' {
            c.r = Some(value);
        }
        c
    }
}

} // verus!
