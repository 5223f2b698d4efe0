//! The decisions of the editor's session with Neovim: how a change of the
//! window's resolution is reported, and what each user-interface event asks
//! of Neovim.

use vstd::prelude::*;

verus! {

/// The size in pixels of one grid cell.
pub const FONTSIZE: u32 = 16;

/// What a change of resolution asks of Neovim.
#[derive(Debug, PartialEq, Eq)]
pub enum ResolutionRequest {
    /// Attach the user interface with a grid of this many columns and rows
    /// (with the external line grid).
    Attach { columns: i64, rows: i64 },
    /// Resize the attached user interface to this width and height.
    Resize { width: i64, height: i64 },
}

/// The request made for a window of `width` by `height` pixels, by a
/// session that has (`attached`) or has not yet attached its interface.
pub open spec fn spec_resolution_request(attached: bool, width: u32, height: u32) -> ResolutionRequest {
    if attached {
        ResolutionRequest::Resize { width: width as i64, height: height as i64 }
    } else {
        ResolutionRequest::Attach {
            columns: (width / FONTSIZE) as i64,
            rows: (height / FONTSIZE) as i64,
        }
    }
}

/// The state of the session with Neovim that decides what is sent to it.
#[derive(Debug)]
pub struct BridgeState {
    already_attached_ui: bool,
}

impl BridgeState {
    /// Whether the user interface has been attached to Neovim.
    pub closed spec fn attached(self) -> bool {
        self.already_attached_ui
    }

    pub fn new() -> (r: Self)
        ensures
            !r.attached(),
    {
        BridgeState { already_attached_ui: false }
    }

    /// Reports a resolution of `width` by `height` pixels: the first report
    /// attaches the user interface, with the grid size in cells; every later
    /// one resizes it.
    pub fn change_resolution(&mut self, width: u32, height: u32) -> (r: ResolutionRequest)
        ensures
            r == spec_resolution_request(old(self).attached(), width, height),
            final(self).attached(),
    {
        if self.already_attached_ui {
            ResolutionRequest::Resize { width: width as i64, height: height as i64 }
        } else {
            self.already_attached_ui = true;
            ResolutionRequest::Attach {
                columns: (width / FONTSIZE) as i64,
                rows: (height / FONTSIZE) as i64,
            }
        }
    }
}

/// The user interface is attached once only: a first report of the
/// resolution attaches it, and the report after that resizes it.
pub proof fn lemma_attach_once(width1: u32, height1: u32, width2: u32, height2: u32)
    ensures
        spec_resolution_request(false, width1, height1) is Attach,
        spec_resolution_request(true, width2, height2) == (ResolutionRequest::Resize {
            width: width2 as i64,
            height: height2 as i64,
        }),
{
}

/// A session not yet attached asks to attach with the grid size in whole
/// cells of `FONTSIZE` pixels: `columns` cells fit in the width and one more
/// would not, and likewise for `rows`. An attached session asks to resize to
/// the width and height as given.
pub proof fn lemma_resolution_sizes(width: u32, height: u32)
    ensures
        spec_resolution_request(false, width, height) matches ResolutionRequest::Attach {
            columns,
            rows,
        } && columns * 16 <= width < (columns + 1) * 16 && rows * 16 <= height < (rows + 1) * 16,
        spec_resolution_request(true, width, height) matches ResolutionRequest::Resize {
            width: w,
            height: h,
        } && w == width && h == height,
{
}

/// The command that opens `path` is `e`, a space, then the path unchanged.
pub proof fn lemma_open_file_command(path: Seq<char>)
    ensures
        spec_open_file_command(path).len() == path.len() + 2,
        spec_open_file_command(path)[0] == 'e',
        spec_open_file_command(path)[1] == ' ',
        spec_open_file_command(path).subrange(2, path.len() + 2int) == path,
{
    reveal_strlit("e ");
    assert(spec_open_file_command(path).subrange(2, path.len() + 2int) =~= path);
}

/// The Neovim command that opens the file at `path`.
pub open spec fn spec_open_file_command(path: Seq<char>) -> Seq<char> {
    "e "@ + path
}

/// Builds the Neovim command that opens the file at `path`.
pub fn open_file_command(path: &str) -> (r: String)
    ensures
        r@ == spec_open_file_command(path@),
{
    String::from_str("e ").concat(path)
}

/// The events of the user interface that the editor acts on.
#[derive(Debug, PartialEq, Eq, Clone, Copy)]
pub enum UiEvent {
    /// The window was resized to `width` by `height` pixels.
    Resized { width: u32, height: u32 },
    /// A character was typed.
    CharacterReceived(char),
    /// The text of a buffer changed.
    BufUpdate,
    /// Any other event.
    Other,
}

/// What the editor asks of Neovim.
#[derive(Debug, PartialEq, Eq)]
pub enum BridgeRequest {
    Resolution(ResolutionRequest),
    /// Run this command.
    Command(String),
    /// Send this character as typed input.
    Input(char),
}

/// The file that the editor opens once it knows its window's size.
pub open spec fn startup_file() -> Seq<char> {
    "~/test"@
}

/// The requests that `event` gives rise to, in order: a resize reports the
/// resolution and then opens the startup file; a typed character is sent as
/// input; every other event asks nothing.
pub fn update(bridge: &mut BridgeState, event: UiEvent) -> (r: Vec<BridgeRequest>)
    ensures
        match event {
            UiEvent::Resized { width, height } => {
                &&& final(bridge).attached()
                &&& r@.len() == 2
                &&& r@[0] == BridgeRequest::Resolution(
                    spec_resolution_request(old(bridge).attached(), width, height),
                )
                &&& r@[1] matches BridgeRequest::Command(cmd)
                &&& cmd@ == spec_open_file_command(startup_file())
            },
            UiEvent::CharacterReceived(c) => {
                &&& final(bridge).attached() == old(bridge).attached()
                &&& r@ == seq![BridgeRequest::Input(c)]
            },
            _ => {
                &&& final(bridge).attached() == old(bridge).attached()
                &&& r@.len() == 0
            },
        },
{
    match event {
        UiEvent::Resized { width, height } => {
            let resolution = bridge.change_resolution(width, height);
            let command = open_file_command("~/test");
            let mut requests = Vec::new();
            requests.push(BridgeRequest::Resolution(resolution));
            requests.push(BridgeRequest::Command(command));
            requests
        },
        UiEvent::CharacterReceived(c) => {
            let mut requests = Vec::new();
            requests.push(BridgeRequest::Input(c));
            requests
        },
        _ => Vec::new(),
    }
}

} // verus!
