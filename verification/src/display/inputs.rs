//! A menu: a title and a list of options, one of which is chosen with the arrow keys.

use vstd::prelude::*;
use vstd::string::*;
use crate::display::game::shows;
use crate::game::Key;

verus! {

/// A menu of options under a title.
pub struct OptionSelect {
    title: String,
    options: Vec<String>,
}

/// What a key does to a menu.
#[derive(PartialEq, Eq, Debug)]
pub enum MenuStep {
    /// The menu stays open, with the mark on the option of this index.
    Show(usize),
    /// This option was chosen.
    Chosen(String),
    /// The user asked to leave the program.
    Quit,
}

/// The character for a digit.
pub open spec fn digit_char(digit: nat) -> char {
    if digit == 0 {
        '0'
    } else if digit == 1 {
        '1'
    } else if digit == 2 {
        '2'
    } else if digit == 3 {
        '3'
    } else if digit == 4 {
        '4'
    } else if digit == 5 {
        '5'
    } else if digit == 6 {
        '6'
    } else if digit == 7 {
        '7'
    } else if digit == 8 {
        '8'
    } else {
        '9'
    }
}

/// A number written in decimal digits.
pub open spec fn decimal_text(number: nat) -> Seq<char>
    decreases number,
{
    if number < 10 {
        seq![digit_char(number)]
    } else {
        decimal_text(number / 10).push(digit_char(number % 10))
    }
}

/// The line of a menu for the option of index `index`: a mark if it is the current
/// one and a blank if not, its number, counted from 1, in brackets, and its text.
pub open spec fn option_text(index: nat, option: Seq<char>, current: bool) -> Seq<char> {
    (if current {
        "> ["@
    } else {
        "  ["@
    }) + decimal_text(index + 1) + "] "@ + option
}

/// The index of the marked option after a key: up and down move the mark by one and
/// stop at the ends of a list of `count` options; no other key moves it.
pub open spec fn marked_after(current: nat, count: nat, key: Key) -> nat {
    match key {
        Key::Up => if current > 0 {
            (current - 1) as nat
        } else {
            current
        },
        Key::Down => if current + 1 < count {
            current + 1
        } else {
            current
        },
        _ => current,
    }
}

/// A digit as text.
fn digit(value: usize) -> (text: &'static str)
    requires
        value < 10,
    ensures
        text@ == seq![digit_char(value as nat)],
{
    proof {
        reveal_strlit("0");
        reveal_strlit("1");
        reveal_strlit("2");
        reveal_strlit("3");
        reveal_strlit("4");
        reveal_strlit("5");
        reveal_strlit("6");
        reveal_strlit("7");
        reveal_strlit("8");
        reveal_strlit("9");
    }
    let text = if value == 0 {
        "0"
    } else if value == 1 {
        "1"
    } else if value == 2 {
        "2"
    } else if value == 3 {
        "3"
    } else if value == 4 {
        "4"
    } else if value == 5 {
        "5"
    } else if value == 6 {
        "6"
    } else if value == 7 {
        "7"
    } else if value == 8 {
        "8"
    } else {
        "9"
    };
    assert(text@ =~= seq![digit_char(value as nat)]);
    text
}

/// A number written in decimal digits.
pub fn decimal(number: usize) -> (text: String)
    ensures
        text@ == decimal_text(number as nat),
    decreases number,
{
    if number < 10 {
        String::from_str(digit(number))
    } else {
        let mut text = decimal(number / 10);
        text.append(digit(number % 10));
        assert(text@ =~= decimal_text(number as nat));
        text
    }
}

impl OptionSelect {
    /// The title of the menu.
    pub closed spec fn title(&self) -> Seq<char> {
        self.title@
    }

    /// The options of the menu, in the order in which they were added.
    pub closed spec fn options(&self) -> Seq<Seq<char>> {
        Seq::new(self.options@.len(), |i: int| self.options@[i]@)
    }

    /// The line above the options: the title and a colon.
    pub open spec fn heading_text(&self) -> Seq<char> {
        self.title() + ":"@
    }

    /// The lines of the menu with the mark on the option of index `current`.
    pub open spec fn menu_text(&self, current: nat) -> Seq<Seq<char>> {
        Seq::new(
            self.options().len(),
            |i: int| option_text(i as nat, self.options()[i], i == current),
        )
    }

    /// A menu without a title and without options.
    pub fn new() -> (menu: Self)
        ensures
            menu.title() == Seq::<char>::empty(),
            menu.options() == Seq::<Seq<char>>::empty(),
    {
        let menu = OptionSelect { title: String::new(), options: Vec::new() };
        assert(menu.options() =~= Seq::<Seq<char>>::empty());
        menu
    }

    pub fn set_title(self, title: String) -> (menu: Self)
        ensures
            menu.title() == title@,
            menu.options() == self.options(),
    {
        let mut menu = self;
        menu.title = title;
        menu
    }

    pub fn add_option(self, option: String) -> (menu: Self)
        ensures
            menu.title() == self.title(),
            menu.options() == self.options().push(option@),
    {
        let mut menu = self;
        menu.options.push(option);
        assert(menu.options() =~= self.options().push(option@));
        menu
    }

    /// The number of options.
    pub fn option_count(&self) -> (count: usize)
        ensures
            count == self.options().len(),
    {
        self.options.len()
    }

    /// The line above the options.
    pub fn heading(&self) -> (text: String)
        ensures
            text@ == self.heading_text(),
    {
        let mut text = self.title.clone();
        text.append(":");
        text
    }

    /// The lines of the menu, one for each option, with the mark on the option of
    /// index `current_option`.
    pub fn lines(&self, current_option: usize) -> (lines: Vec<String>)
        ensures
            shows(lines@, self.menu_text(current_option as nat)),
    {
        let mut lines: Vec<String> = Vec::new();
        let mut i: usize = 0;
        while i < self.options.len()
            invariant
                i <= self.options@.len(),
                lines@.len() == i,
                forall|j: int|
                    0 <= j < i ==> (#[trigger] lines@[j])@ == option_text(
                        j as nat,
                        self.options@[j]@,
                        j == current_option,
                    ),
            decreases self.options@.len() - i,
        {
            let mut line = if i == current_option {
                String::from_str("> [")
            } else {
                String::from_str("  [")
            };
            line.append(decimal(i + 1).as_str());
            line.append("] ");
            line.append(self.options[i].as_str());
            lines.push(line);
            i += 1;
        }
        lines
    }

    /// One key of the choice. Up and down move the mark, and stop at the first and
    /// the last option. Enter chooses the marked option. The quit key leaves, and any
    /// other key changes nothing. `current_option` is the index of an option.
    pub fn step(&self, current_option: usize, key: Key) -> (step: MenuStep)
        requires
            current_option < self.options().len(),
        ensures
            match key {
                Key::Quit => step == MenuStep::Quit,
                Key::Enter => step matches MenuStep::Chosen(option) && option@
                    == self.options()[current_option as int],
                _ => step == MenuStep::Show(
                    marked_after(current_option as nat, self.options().len(), key) as usize,
                ),
            },
    {
        match key {
            Key::Quit => MenuStep::Quit,
            Key::Up => {
                if current_option > 0 {
                    MenuStep::Show(current_option - 1)
                } else {
                    MenuStep::Show(current_option)
                }
            },
            Key::Down => {
                if current_option < self.options.len() - 1 {
                    MenuStep::Show(current_option + 1)
                } else {
                    MenuStep::Show(current_option)
                }
            },
            Key::Enter => MenuStep::Chosen(self.options[current_option].clone()),
            _ => MenuStep::Show(current_option),
        }
    }
}

} // verus!
