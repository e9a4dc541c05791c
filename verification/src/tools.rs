//! The tools that the research workflow runs: what a tool run hands back, the
//! names of the web tools, the web tools themselves (`web`) and the rules on
//! which addresses they may reach (`net`).

pub mod net;
pub mod web;

use vstd::prelude::*;

use crate::providers::ToolCall;

verus! {

/// The name of the web search tool.
pub const SEARCH_WEB_TOOL_NAME: &'static str = "search_web";

/// The name of the page fetch tool.
pub const FETCH_WEB_PAGE_TOOL_NAME: &'static str = "fetch_web_page";

/// The result of running one tool call.
#[derive(Debug)]
pub struct ToolExecution {
    /// What the model receives.
    pub content: String,
    /// What the activity panel shows.
    pub detail: String,
    /// Calls to run next within the same research turn.
    pub follow_up_calls: Vec<ToolCall>,
}

} // verus!
