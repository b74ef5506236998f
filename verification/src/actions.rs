//! The action registry: the named commands the window declares, their
//! keyboard accelerators, which of them carry a handler, and the renderer
//! tags behind the list view's two columns.

use vstd::prelude::*;
use crate::text::str_eq;

verus! {

/// Every command name the window declares. Each is bound to a keyboard
/// accelerator at startup; only `Open` and `Close` have handlers in this
/// core, the rest are deliberate forward declarations.
#[derive(Clone, Copy, PartialEq, Eq, Structural, Debug)]
pub enum CommandName {
    New,
    Open,
    Scan,
    Save,
    Email,
    Print,
    Close,
}

/// What a command with a registered handler does when invoked.
#[derive(Clone, Copy, PartialEq, Eq, Structural, Debug)]
pub enum Handler {
    ShowOpenDialog,
    CloseWindow,
}

/// The name under which a command is registered and invoked.
pub open spec fn spec_command_name(c: CommandName) -> Seq<char> {
    match c {
        CommandName::New => "new"@,
        CommandName::Open => "open"@,
        CommandName::Scan => "scan"@,
        CommandName::Save => "save"@,
        CommandName::Email => "email"@,
        CommandName::Print => "print"@,
        CommandName::Close => "close"@,
    }
}

pub fn command_name(c: CommandName) -> (r: &'static str)
    ensures
        r@ == spec_command_name(c),
{
    match c {
        CommandName::New => "new",
        CommandName::Open => "open",
        CommandName::Scan => "scan",
        CommandName::Save => "save",
        CommandName::Email => "email",
        CommandName::Print => "print",
        CommandName::Close => "close",
    }
}

/// Which command a name denotes, if any.
pub open spec fn spec_parse_command(s: Seq<char>) -> Option<CommandName> {
    if s == "new"@ {
        Some(CommandName::New)
    } else if s == "open"@ {
        Some(CommandName::Open)
    } else if s == "scan"@ {
        Some(CommandName::Scan)
    } else if s == "save"@ {
        Some(CommandName::Save)
    } else if s == "email"@ {
        Some(CommandName::Email)
    } else if s == "print"@ {
        Some(CommandName::Print)
    } else if s == "close"@ {
        Some(CommandName::Close)
    } else {
        None
    }
}

pub fn parse_command(name: &str) -> (r: Option<CommandName>)
    ensures
        r == spec_parse_command(name@),
{
    if str_eq(name, "new") {
        Some(CommandName::New)
    } else if str_eq(name, "open") {
        Some(CommandName::Open)
    } else if str_eq(name, "scan") {
        Some(CommandName::Scan)
    } else if str_eq(name, "save") {
        Some(CommandName::Save)
    } else if str_eq(name, "email") {
        Some(CommandName::Email)
    } else if str_eq(name, "print") {
        Some(CommandName::Print)
    } else if str_eq(name, "close") {
        Some(CommandName::Close)
    } else {
        None
    }
}

/// A command's name always parses back to that command.
pub proof fn lemma_command_name_round_trip(c: CommandName)
    ensures
        spec_parse_command(spec_command_name(c)) == Some(c),
{
    reveal_strlit("new");
    reveal_strlit("open");
    reveal_strlit("scan");
    reveal_strlit("save");
    reveal_strlit("email");
    reveal_strlit("print");
    reveal_strlit("close");
    assert("new"@.len() == 3);
    assert("open"@.len() == 4);
    assert("scan"@.len() == 4);
    assert("save"@.len() == 4);
    assert("email"@.len() == 5);
    assert("print"@.len() == 5);
    assert("close"@.len() == 5);
    assert("open"@[0] == 'o' && "scan"@[0] == 's' && "save"@[0] == 's');
    assert("scan"@[1] == 'c' && "save"@[1] == 'a');
    assert("email"@[0] == 'e' && "print"@[0] == 'p' && "close"@[0] == 'c');
}

/// The keyboard accelerator bound to each command at startup.
pub open spec fn spec_accelerator(c: CommandName) -> Seq<char> {
    match c {
        CommandName::New => "<Ctrl>N"@,
        CommandName::Open => "<Ctrl>O"@,
        CommandName::Scan => "<Ctrl>G"@,
        CommandName::Save => "<Ctrl>S"@,
        CommandName::Email => "<Ctrl>E"@,
        CommandName::Print => "<Ctrl>P"@,
        CommandName::Close => "<Ctrl>Q"@,
    }
}

pub fn accelerator(c: CommandName) -> (r: &'static str)
    ensures
        r@ == spec_accelerator(c),
{
    match c {
        CommandName::New => "<Ctrl>N",
        CommandName::Open => "<Ctrl>O",
        CommandName::Scan => "<Ctrl>G",
        CommandName::Save => "<Ctrl>S",
        CommandName::Email => "<Ctrl>E",
        CommandName::Print => "<Ctrl>P",
        CommandName::Close => "<Ctrl>Q",
    }
}

/// The handler registered for a command, if any: an accelerator without a
/// handler is a no-op, not an error.
pub open spec fn spec_handler_for(c: CommandName) -> Option<Handler> {
    match c {
        CommandName::Open => Some(Handler::ShowOpenDialog),
        CommandName::Close => Some(Handler::CloseWindow),
        _ => None,
    }
}

pub fn handler_for(c: CommandName) -> (r: Option<Handler>)
    ensures
        r == spec_handler_for(c),
{
    match c {
        CommandName::Open => Some(Handler::ShowOpenDialog),
        CommandName::Close => Some(Handler::CloseWindow),
        _ => None,
    }
}

/// The kind of cell renderer a list column uses.
#[derive(Clone, Copy, PartialEq, Eq, Structural, Debug)]
pub enum RendererKind {
    Text,
    Pixbuf,
}

/// Which renderer a column tag denotes; any other tag is a programming
/// error, surfaced as `None` for the caller to treat as fatal.
pub open spec fn spec_parse_renderer_tag(s: Seq<char>) -> Option<RendererKind> {
    if s == "text"@ {
        Some(RendererKind::Text)
    } else if s == "pixbuf"@ {
        Some(RendererKind::Pixbuf)
    } else {
        None
    }
}

pub fn parse_renderer_tag(tag: &str) -> (r: Option<RendererKind>)
    ensures
        r == spec_parse_renderer_tag(tag@),
{
    if str_eq(tag, "text") {
        Some(RendererKind::Text)
    } else if str_eq(tag, "pixbuf") {
        Some(RendererKind::Pixbuf)
    } else {
        None
    }
}

/// One column of the list view: a renderer kind bound to a model column.
#[derive(Clone, Copy, PartialEq, Eq, Structural, Debug)]
pub struct ColumnSpec {
    pub renderer: RendererKind,
    pub column: u32,
}

/// The list view's fixed schema: a text renderer on the page-number column,
/// then a pixbuf renderer on the thumbnail column.
pub fn column_schema() -> (r: Vec<ColumnSpec>)
    ensures
        r@ =~= seq![
            (ColumnSpec { renderer: RendererKind::Text, column: 0 }),
            (ColumnSpec { renderer: RendererKind::Pixbuf, column: 1 }),
        ],
{
    let mut schema: Vec<ColumnSpec> = Vec::new();
    schema.push(ColumnSpec { renderer: RendererKind::Text, column: 0 });
    schema.push(ColumnSpec { renderer: RendererKind::Pixbuf, column: 1 });
    schema
}

} // verus!
