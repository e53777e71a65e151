use vstd::prelude::*;

use crate::download::DownloadError;
use crate::plex::DecodeError;

verus! {

/// Separates a tool's name from its description in the menu.
pub const ENTRY_SEPARATOR: &'static str = ": ";

/// The tools of the interactive menu.
#[derive(Debug, Clone, Copy, PartialEq, Eq)]
pub enum Tool {
    PlexInit,
    SyncPlaylist,
    ExportPlaylist,
    Exit,
}

/// How a tool presents itself in the menu.
#[derive(Debug, Clone, Copy)]
pub struct ToolDescription {
    pub tool: Tool,
    pub name: &'static str,
    pub description: &'static str,
}

/// Why a tool stopped.
#[derive(Debug, Clone, PartialEq, Eq)]
pub enum ToolError {
    /// The user asked to leave the program.
    Abort,
    /// The configuration could not be written.
    ConfigError(String),
    /// The tool needs a server configuration and there is none.
    NoPlexConfig,
    /// A request to the server failed.
    FetchError(String),
    /// A server document could not be decoded.
    DecodeError(DecodeError),
    DownloadError(DownloadError),
}

/// The menu's tools, in the order in which it lists them.
pub open spec fn menu_tools() -> Seq<Tool> {
    seq![Tool::PlexInit, Tool::SyncPlaylist, Tool::ExportPlaylist, Tool::Exit]
}

/// Whether a tool is offered: those that talk to the server need a configuration.
pub open spec fn tool_is_active(tool: Tool, has_config: bool) -> bool {
    match tool {
        Tool::PlexInit | Tool::Exit => true,
        Tool::SyncPlaylist | Tool::ExportPlaylist => has_config,
    }
}

/// The tools that the menu offers, in menu order.
pub open spec fn active_tools_spec(has_config: bool) -> Seq<Tool> {
    menu_tools().filter(|t: Tool| tool_is_active(t, has_config))
}

/// The name under which the menu lists a tool.
pub open spec fn tool_name(tool: Tool) -> Seq<char> {
    match tool {
        Tool::PlexInit => "plex-init"@,
        Tool::SyncPlaylist => "sync-playlist"@,
        Tool::ExportPlaylist => "export-playlist"@,
        Tool::Exit => "exit"@,
    }
}

/// What the menu says a tool does.
pub open spec fn tool_description(tool: Tool) -> Seq<char> {
    match tool {
        Tool::PlexInit => "Specify access to your Plex instance"@,
        Tool::SyncPlaylist => "Synchronize a Plex music playlist to a folder"@,
        Tool::ExportPlaylist => "Export playlist to CSV"@,
        Tool::Exit => "Exit program"@,
    }
}

impl Tool {
    /// Whether the menu offers this tool, given whether a configuration exists.
    pub fn is_active(self, has_config: bool) -> (r: bool)
        ensures
            r == tool_is_active(self, has_config),
    {
        match self {
            Tool::PlexInit | Tool::Exit => true,
            Tool::SyncPlaylist | Tool::ExportPlaylist => has_config,
        }
    }

    /// The tool's name and description.
    pub fn describe(self) -> (r: ToolDescription)
        ensures
            r.tool == self,
            r.name@ == tool_name(self),
            r.description@ == tool_description(self),
    {
        match self {
            Tool::PlexInit => ToolDescription {
                tool: self,
                name: "plex-init",
                description: "Specify access to your Plex instance",
            },
            Tool::SyncPlaylist => ToolDescription {
                tool: self,
                name: "sync-playlist",
                description: "Synchronize a Plex music playlist to a folder",
            },
            Tool::ExportPlaylist => ToolDescription {
                tool: self,
                name: "export-playlist",
                description: "Export playlist to CSV",
            },
            Tool::Exit => ToolDescription { tool: self, name: "exit", description: "Exit program" },
        }
    }
}

impl ToolDescription {
    /// The tool's line in the menu: "{name}: {description}".
    pub fn menu_entry(&self) -> (r: String)
        ensures
            r@ == self.name@ + ENTRY_SEPARATOR@ + self.description@,
    {
        let mut r = String::from_str(self.name);
        r.append(ENTRY_SEPARATOR);
        r.append(self.description);
        r
    }
}

/// The tools that the menu offers, in menu order; the menu dispatches on the
/// tool of the entry that was picked.
pub fn active_tools(has_config: bool) -> (r: Vec<Tool>)
    ensures
        r@ == active_tools_spec(has_config),
{
    let all = vec![Tool::PlexInit, Tool::SyncPlaylist, Tool::ExportPlaylist, Tool::Exit];
    assert(all@ =~= menu_tools());
    let ghost pred = |t: Tool| tool_is_active(t, has_config);
    let mut r: Vec<Tool> = Vec::new();
    let mut i: usize = 0;
    assert(all@.take(0) =~= Seq::<Tool>::empty());
    proof {
        reveal(Seq::filter);
    }
    while i < all.len()
        invariant
            i <= all@.len(),
            all@ == menu_tools(),
            pred == (|t: Tool| tool_is_active(t, has_config)),
            r@ == all@.take(i as int).filter(pred),
        decreases all@.len() - i,
    {
        let tool = all[i];
        assert(all@.take(i + 1) =~= all@.take(i as int).push(tool));
        proof {
            all@.take(i as int).lemma_filter_push(tool, pred);
        }
        if tool.is_active(has_config) {
            r.push(tool);
        }
        i = i + 1;
    }
    assert(all@.take(all@.len() as int) =~= all@);
    r
}

/// Whether the menu comes back after a tool ended with `result`: every
/// outcome but the request to leave returns to it.
pub fn menu_continues(result: &Result<(), ToolError>) -> (r: bool)
    ensures
        r == !(result matches Err(ToolError::Abort)),
{
    match result {
        Err(ToolError::Abort) => false,
        _ => true,
    }
}

} // verus!
