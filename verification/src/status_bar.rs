//! The status line: empty, showing an error for a number of ticks, or taking
//! a command.

use ratatui::style::{Color, Modifier, Style};
use tui_textarea::TextArea;
use vstd::prelude::*;

verus! {

/// The editor of the command line: a text area of tui-textarea, which is
/// reached through the field. Nothing is proved of what it does; what is said
/// of it goes through [`editor_lines`], [`editor_style`] and
/// [`editor_cursor_line_style`].
#[verifier::external_body]
#[derive(Debug)]
pub struct Editor<'a>(pub TextArea<'a>);

/// The style type of ratatui, with its fields: the colours that it sets and
/// the modifiers that it adds and removes.
#[verifier::external_type_specification]
pub struct ExStyle(Style);

/// The colour type of ratatui, with its variants.
#[verifier::external_type_specification]
pub struct ExColor(Color);

/// The set of text modifiers of ratatui, carried as an opaque value.
#[verifier::external_type_specification]
#[verifier::external_body]
pub struct ExModifier(Modifier);

/// The lines of text that an editor holds, first line first.
pub uninterp spec fn editor_lines(editor: Editor) -> Seq<Seq<char>>;

/// The style in which an editor is drawn.
pub uninterp spec fn editor_style(editor: Editor) -> Style;

/// The style in which an editor draws the line under the cursor.
pub uninterp spec fn editor_cursor_line_style(editor: Editor) -> Style;

/// The bits of a set of text modifiers: 0 for the empty set.
pub uninterp spec fn modifier_bits(modifier: Modifier) -> u16;

/// Whether an editor holds no text: a single line without characters.
pub open spec fn is_blank(editor: Editor) -> bool {
    editor_lines(editor) == seq![Seq::<char>::empty()]
}

/// Whether a style adds and removes no modifier.
pub open spec fn has_no_modifier(style: Style) -> bool {
    modifier_bits(style.add_modifier) == 0 && modifier_bits(style.sub_modifier) == 0
}

/// Whether a style changes nothing of what it is laid over.
pub open spec fn is_plain(style: Style) -> bool {
    &&& style.fg is None
    &&& style.bg is None
    &&& style.underline_color is None
    &&& has_no_modifier(style)
}

/// Whether a style is that of the command line: black on green.
pub open spec fn is_command_style(style: Style) -> bool {
    &&& style.fg == Some(Color::Black)
    &&& style.bg == Some(Color::Green)
    &&& style.underline_color is None
    &&& has_no_modifier(style)
}

/// `TextArea::default` of tui-textarea makes an editor that holds a single
/// empty line.
#[verifier::external_body]
fn blank_editor<'a>() -> (editor: Editor<'a>)
    ensures
        is_blank(editor),
{
    Editor(TextArea::default())
}

/// `TextArea::set_style` of tui-textarea stores the style in which the editor
/// is drawn and leaves the text and the style of the cursor line as they are.
#[verifier::external_body]
fn set_editor_style<'a>(editor: &mut Editor<'a>, style: Style)
    ensures
        editor_style(*final(editor)) == style,
        editor_lines(*final(editor)) == editor_lines(*old(editor)),
        editor_cursor_line_style(*final(editor)) == editor_cursor_line_style(*old(editor)),
{
    editor.0.set_style(style);
}

/// `TextArea::set_cursor_line_style` of tui-textarea stores the style in
/// which the line under the cursor is drawn and leaves the text and the style
/// of the editor as they are.
#[verifier::external_body]
fn set_editor_cursor_line_style<'a>(editor: &mut Editor<'a>, style: Style)
    ensures
        editor_cursor_line_style(*final(editor)) == style,
        editor_lines(*final(editor)) == editor_lines(*old(editor)),
        editor_style(*final(editor)) == editor_style(*old(editor)),
{
    editor.0.set_cursor_line_style(style);
}

/// `Style::default` of ratatui sets no colour and holds two empty sets of
/// modifiers.
#[verifier::external_body]
fn plain_style() -> (style: Style)
    ensures
        style.fg is None,
        style.bg is None,
        style.underline_color is None,
        modifier_bits(style.add_modifier) == 0,
        modifier_bits(style.sub_modifier) == 0,
{
    Style::default()
}

/// The style of the command line: black on green.
pub fn command_style() -> (style: Style)
    ensures
        is_command_style(style),
{
    let mut style = plain_style();
    style.bg = Some(Color::Green);
    style.fg = Some(Color::Black);
    style
}

/// What the bottom line of the screen shows.
#[derive(Debug)]
pub enum StatusBar<'a> {
    /// Nothing.
    Normal,
    /// A message, and the number of ticks for which it stays.
    Error(String, usize),
    /// The editor into which a command is typed.
    Command(Editor<'a>),
}

/// The status line one tick after `before`: an error with ticks left has one
/// less, an error with none left is gone, anything else stays.
pub open spec fn ticked<'a>(before: StatusBar<'a>) -> StatusBar<'a> {
    match before {
        StatusBar::Error(message, ticks) => if ticks == 0 {
            StatusBar::Normal
        } else {
            StatusBar::Error(message, (ticks - 1) as usize)
        },
        other => other,
    }
}

/// Whether `editor` is what entering command mode from `before` hands out:
/// the editor that is already open, as it stands, or else a blank one in the
/// style of the command line, whose cursor line is not set off.
pub open spec fn opens<'a>(before: StatusBar<'a>, editor: Editor<'a>) -> bool {
    match before {
        StatusBar::Command(open) => editor == open,
        _ => {
            &&& is_blank(editor)
            &&& is_command_style(editor_style(editor))
            &&& is_plain(editor_cursor_line_style(editor))
        },
    }
}

/// The status line `ticks` ticks after `before`.
pub open spec fn ticked_times<'a>(before: StatusBar<'a>, ticks: nat) -> StatusBar<'a>
    decreases ticks,
{
    if ticks == 0 {
        before
    } else {
        ticked(ticked_times(before, (ticks - 1) as nat))
    }
}

impl<'a> StatusBar<'a> {
    /// Clears the status line.
    pub fn normal(&mut self)
        ensures
            *final(self) == StatusBar::<'a>::Normal,
    {
        self.update(StatusBar::Normal);
    }

    /// Shows `msg` for `ticks` ticks, over whatever was shown.
    pub fn error(&mut self, msg: &str, ticks: usize)
        ensures
            *final(self) matches StatusBar::Error(message, left) && message@ == msg@ && left
                == ticks,
    {
        self.update(StatusBar::Error(msg.to_string(), ticks));
    }

    /// Enters command mode and hands out its editor. An editor that is already
    /// open is handed out as it stands; otherwise a blank one is opened. What
    /// the caller leaves in the editor is what the status line then holds.
    pub fn command(&mut self) -> (editor: &mut Editor<'a>)
        ensures
            opens(*old(self), *editor),
            *final(self) == StatusBar::Command(*final(editor)),
    {
        if !self.is_command() {
            let mut text_area = blank_editor();
            set_editor_style(&mut text_area, command_style());
            set_editor_cursor_line_style(&mut text_area, plain_style());
            self.update(StatusBar::Command(text_area));
        }
        match self {
            StatusBar::Command(text_area) => text_area,
            _ => vstd::pervasive::unreached(),
        }
    }

    /// Whether the status line is taking a command.
    pub fn is_command(&self) -> (open: bool)
        ensures
            open == (self is Command),
    {
        match self {
            StatusBar::Command(_) => true,
            _ => false,
        }
    }

    /// Replaces what the status line shows.
    pub fn update(&mut self, status: StatusBar<'a>)
        ensures
            *final(self) == status,
    {
        *self = status;
    }

    /// One tick passes: an error with ticks left loses one, an error with none
    /// left is cleared. Nothing else changes.
    pub fn tick(&mut self)
        ensures
            *final(self) == ticked(*old(self)),
    {
        match self {
            StatusBar::Error(_, ticks) => {
                if *ticks == 0 {
                    *self = StatusBar::Normal;
                } else {
                    *ticks -= 1;
                }
            },
            _ => {},
        }
    }
}

impl<'a> Default for StatusBar<'a> {
    /// The empty status line.
    fn default() -> (status: StatusBar<'a>)
        ensures
            status == StatusBar::<'a>::Normal,
    {
        StatusBar::Normal
    }
}

/// Entering command mode while an editor is open hands out that very editor,
/// with the text that was left in it.
pub proof fn lemma_command_keeps_editor<'a>(left: Editor<'a>, handed: Editor<'a>)
    requires
        opens(StatusBar::Command(left), handed),
    ensures
        handed == left,
        editor_lines(handed) == editor_lines(left),
{
}

/// An error that is shown for `ticks` ticks is still shown after each of the
/// first `ticks` ticks, with one tick less each time, and is gone after one
/// tick more.
pub proof fn lemma_error_countdown(message: String, ticks: usize, passed: nat)
    requires
        passed <= ticks + 1,
    ensures
        passed <= ticks ==> ticked_times(StatusBar::Error(message, ticks), passed)
            == StatusBar::Error(message, (ticks - passed) as usize),
        passed == ticks + 1 ==> ticked_times(StatusBar::Error(message, ticks), passed)
            == StatusBar::Normal,
    decreases passed,
{
    if passed > 0 {
        lemma_error_countdown(message, ticks, (passed - 1) as nat);
    }
}

/// A status line that shows no error does not change with time.
pub proof fn lemma_tick_leaves_others<'a>(status: StatusBar<'a>, passed: nat)
    requires
        !(status is Error),
    ensures
        ticked_times(status, passed) == status,
    decreases passed,
{
    if passed > 0 {
        lemma_tick_leaves_others(status, (passed - 1) as nat);
    }
}

} // verus!
