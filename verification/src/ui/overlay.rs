//! The control panel: two text fields for the start and the goal point and a
//! play/pause button. This module holds its state and its decisions; drawing
//! it, finding what a click landed on and reading numbers out of the text
//! are left to the program around it.

use vstd::prelude::*;
use crate::geometry::Point;
use crate::robot::robot_arm::RobotArm;

verus! {

/// The text field that takes the keys.
#[derive(Copy, Clone, Debug, PartialEq, Eq, Structural)]
pub enum FocusField {
    Start,
    Goal,
}

impl FocusField {
    /// The other field.
    pub open spec fn other(self) -> FocusField {
        match self {
            FocusField::Start => FocusField::Goal,
            FocusField::Goal => FocusField::Start,
        }
    }
}

/// What a click of the mouse landed on.
#[derive(Copy, Clone, Debug, PartialEq, Eq, Structural)]
pub enum Click {
    /// No click, or a click on none of the controls.
    Elsewhere,
    StartBox,
    GoalBox,
    Button,
}

/// What the user did in one frame.
#[derive(Debug)]
pub struct UiInput {
    pub click: Click,
    /// The characters typed, in order.
    pub chars: Vec<char>,
    pub key_backspace: bool,
    pub key_tab: bool,
    pub key_enter: bool,
    pub key_escape: bool,
}

/// What the panel asks of the simulation.
#[derive(Copy, Clone, Debug, PartialEq, Eq, Structural)]
pub enum OverlayAction {
    /// Nothing is asked.
    Nothing,
    Paused(bool),
    StartSimulation { start: Point, goal: Point },
}

/// A character that a text field takes: what a number may be written with,
/// and the blanks between numbers.
pub open spec fn is_input_char(c: char) -> bool {
    ('0' <= c && c <= '9') || c == ' ' || c == '\t' || c == '.' || c == '-' || c == '+' || c
        == 'e' || c == 'E'
}

/// Whether a text field takes the character.
pub fn accepts(c: char) -> (r: bool)
    ensures
        r == is_input_char(c),
{
    ('0' <= c && c <= '9') || c == ' ' || c == '\t' || c == '.' || c == '-' || c == '+' || c
        == 'e' || c == 'E'
}

/// The text after the characters typed: those that a text field takes are
/// added at the end in order, the others are dropped.
pub open spec fn typed(text: Seq<char>, chars: Seq<char>) -> Seq<char> {
    text + chars.filter(|c: char| is_input_char(c))
}

/// The text after the backspace key: without its last character.
pub open spec fn erased(text: Seq<char>) -> Seq<char> {
    if text.len() > 0 {
        text.drop_last()
    } else {
        text
    }
}

/// Adds the typed characters that a text field takes to the end of `buf`.
pub fn append_chars(buf: &mut String, chars: &[char])
    ensures
        final(buf)@ == typed(old(buf)@, chars@),
{
    let ghost keep = |c: char| is_input_char(c);
    let mut i: usize = 0;
    assert(chars@.take(0) =~= Seq::<char>::empty());
    assert(chars@.take(0).filter(keep) =~= Seq::<char>::empty()) by {
        reveal(Seq::filter);
    }
    assert(buf@ =~= old(buf)@ + chars@.take(0).filter(keep));
    while i < chars.len()
        invariant
            i <= chars.len(),
            keep == (|c: char| is_input_char(c)),
            buf@ == old(buf)@ + chars@.take(i as int).filter(keep),
        decreases chars.len() - i,
    {
        let ch: char = chars[i];
        proof {
            assert(chars@.take(i + 1) =~= chars@.take(i as int).push(ch));
            chars@.take(i as int).lemma_filter_push(ch, keep);
        }
        if accepts(ch) {
            buf.push(ch);
            assert(buf@ =~= old(buf)@ + chars@.take(i + 1).filter(keep));
        }
        i = i + 1;
    }
    assert(chars@.take(chars.len() as int) =~= chars@);
}

/// Removes the last character of `buf`, if there is one.
pub fn backspace(buf: &mut String)
    ensures
        final(buf)@ == erased(old(buf)@),
{
    let _ = buf.pop();
}

/// The mathematical content of the panel.
pub struct OverlayView {
    pub start_text: Seq<char>,
    pub goal_text: Seq<char>,
    pub focus: FocusField,
    /// What the panel has to complain of, if anything.
    pub local_error: Option<Seq<char>>,
}

impl OverlayView {
    /// The field that has the focus after the click and the tab key.
    pub open spec fn refocused(self, click: Click, tab: bool) -> FocusField {
        let clicked = match click {
            Click::StartBox => FocusField::Start,
            Click::GoalBox => FocusField::Goal,
            _ => self.focus,
        };
        if tab {
            clicked.other()
        } else {
            clicked
        }
    }

    /// A text after the keys of one frame: the backspace first, then what
    /// was typed.
    pub open spec fn retyped(text: Seq<char>, input: UiInput) -> Seq<char> {
        typed(
            if input.key_backspace {
                erased(text)
            } else {
                text
            },
            input.chars@,
        )
    }

    /// The panel after the keys and clicks of one frame. While the
    /// simulation runs the panel takes none of them. While it is paused, a
    /// click on a text field gives it the focus, the tab key moves the focus
    /// to the other field, the escape key clears the complaint, and the
    /// field that then has the focus takes the backspace and the characters.
    pub open spec fn after_edit(self, input: UiInput, paused: bool) -> OverlayView {
        if !paused {
            self
        } else {
            let focus = self.refocused(input.click, input.key_tab);
            OverlayView {
                start_text: if focus == FocusField::Start {
                    Self::retyped(self.start_text, input)
                } else {
                    self.start_text
                },
                goal_text: if focus == FocusField::Goal {
                    Self::retyped(self.goal_text, input)
                } else {
                    self.goal_text
                },
                focus,
                local_error: if input.key_escape {
                    None
                } else {
                    self.local_error
                },
            }
        }
    }

    /// Whether the frame pressed the button, by mouse or by the enter key.
    pub open spec fn pressed(input: UiInput) -> bool {
        input.click == Click::Button || input.key_enter
    }

    /// What the panel has to complain of when the button is pressed while
    /// paused: a text that is no point, or a point out of reach.
    pub open spec fn complaint(
        start: Option<Point>,
        goal: Option<Point>,
        arm: RobotArm,
        home: Point,
    ) -> Option<Seq<char>> {
        if start is None {
            Some("Invalid START format. Use: x y z"@)
        } else if goal is None {
            Some("Invalid GOAL format. Use: x y z"@)
        } else if !(arm.reachable(home) && arm.reachable(start->0) && arm.reachable(goal->0)) {
            Some("OUT OF REACH! Choose points inside workspace (z>=0)."@)
        } else {
            None
        }
    }

    /// The complaint that the panel shows after the button.
    pub open spec fn after_press(
        self,
        input: UiInput,
        paused: bool,
        start: Option<Point>,
        goal: Option<Point>,
        arm: RobotArm,
        home: Point,
    ) -> OverlayView {
        if !Self::pressed(input) {
            self
        } else if !paused {
            OverlayView { local_error: None, ..self }
        } else {
            OverlayView { local_error: Self::complaint(start, goal, arm, home), ..self }
        }
    }

    /// What the button asks of the simulation. Pressed while the simulation
    /// runs, it pauses it. Pressed while paused, it starts the mission that
    /// the two text fields describe, if both are points and both, and the
    /// home point, can be reached; else the simulation stays paused.
    pub open spec fn action(
        input: UiInput,
        paused: bool,
        start: Option<Point>,
        goal: Option<Point>,
        arm: RobotArm,
        home: Point,
    ) -> OverlayAction {
        if !Self::pressed(input) {
            OverlayAction::Nothing
        } else if !paused {
            OverlayAction::Paused(true)
        } else if Self::complaint(start, goal, arm, home) is Some {
            OverlayAction::Paused(true)
        } else {
            OverlayAction::StartSimulation { start: start->0, goal: goal->0 }
        }
    }
}

/// The state of the control panel.
#[derive(Debug)]
pub struct OverlayState {
    start_text: String,
    goal_text: String,
    focus: FocusField,
    local_error: Option<String>,
}

impl View for OverlayState {
    type V = OverlayView;

    closed spec fn view(&self) -> OverlayView {
        OverlayView {
            start_text: self.start_text@,
            goal_text: self.goal_text@,
            focus: self.focus,
            local_error: match self.local_error {
                Some(e) => Some(e@),
                None => None,
            },
        }
    }
}

impl OverlayState {
    /// A panel with the two texts given, the focus on the start field and
    /// nothing to complain of.
    pub fn new(start: &str, goal: &str) -> (s: Self)
        ensures
            s@ == (OverlayView {
                start_text: start@,
                goal_text: goal@,
                focus: FocusField::Start,
                local_error: None,
            }),
    {
        Self {
            start_text: String::from_str(start),
            goal_text: String::from_str(goal),
            focus: FocusField::Start,
            local_error: None,
        }
    }

    /// Takes the keys and clicks of one frame.
    pub fn edit(&mut self, input: &UiInput, paused: bool)
        ensures
            final(self)@ == old(self)@.after_edit(*input, paused),
    {
        if !paused {
            return ;
        }
        match input.click {
            Click::StartBox => {
                self.focus = FocusField::Start;
            },
            Click::GoalBox => {
                self.focus = FocusField::Goal;
            },
            _ => {},
        }
        if input.key_tab {
            self.focus =
            match self.focus {
                FocusField::Start => FocusField::Goal,
                FocusField::Goal => FocusField::Start,
            };
        }
        if input.key_escape {
            self.local_error = None;
        }
        match self.focus {
            FocusField::Start => {
                if input.key_backspace {
                    backspace(&mut self.start_text);
                }
                append_chars(&mut self.start_text, input.chars.as_slice());
            },
            FocusField::Goal => {
                if input.key_backspace {
                    backspace(&mut self.goal_text);
                }
                append_chars(&mut self.goal_text, input.chars.as_slice());
            },
        }
    }

    /// Takes the button. `start` and `goal` are the points that the two
    /// texts describe, or none where a text describes no point.
    pub fn press(
        &mut self,
        input: &UiInput,
        paused: bool,
        start: Option<Point>,
        goal: Option<Point>,
        arm: &RobotArm,
        home: Point,
    ) -> (action: OverlayAction)
        ensures
            final(self)@ == old(self)@.after_press(*input, paused, start, goal, *arm, home),
            action == OverlayView::action(*input, paused, start, goal, *arm, home),
    {
        let pressed: bool = match input.click {
            Click::Button => true,
            _ => input.key_enter,
        };
        if !pressed {
            return OverlayAction::Nothing;
        }
        if !paused {
            self.local_error = None;
            return OverlayAction::Paused(true);
        }
        let s: Point = match start {
            Some(s) => s,
            None => {
                self.local_error = Some(String::from_str("Invalid START format. Use: x y z"));
                return OverlayAction::Paused(true);
            },
        };
        let g: Point = match goal {
            Some(g) => g,
            None => {
                self.local_error = Some(String::from_str("Invalid GOAL format. Use: x y z"));
                return OverlayAction::Paused(true);
            },
        };
        let ik_home = arm.solve_ik(home, false);
        let ik_s = arm.solve_ik(s, false);
        let ik_g = arm.solve_ik(g, false);
        if !(ik_home.reachable && ik_s.reachable && ik_g.reachable) {
            self.local_error = Some(
                String::from_str("OUT OF REACH! Choose points inside workspace (z>=0)."),
            );
            return OverlayAction::Paused(true);
        }
        self.local_error = None;
        OverlayAction::StartSimulation { start: s, goal: g }
    }

    /// The text of the start field.
    pub fn start_text(&self) -> (r: &str)
        ensures
            r@ == self@.start_text,
    {
        self.start_text.as_str()
    }

    /// The text of the goal field.
    pub fn goal_text(&self) -> (r: &str)
        ensures
            r@ == self@.goal_text,
    {
        self.goal_text.as_str()
    }

    /// The field that takes the keys.
    pub fn focus(&self) -> (r: FocusField)
        ensures
            r == self@.focus,
    {
        self.focus
    }

    /// What the panel has to complain of, if anything.
    pub fn local_error(&self) -> (r: Option<&str>)
        ensures
            r is Some <==> self@.local_error is Some,
            r matches Some(e) ==> self@.local_error == Some(e@),
    {
        match &self.local_error {
            Some(e) => Some(e.as_str()),
            None => None,
        }
    }
}

} // verus!
