//! The GUI panel shell.  The immediate-mode panel system itself is an
//! outside collaborator; here only the panel bookkeeping is modeled: which
//! panels exist, which tool each one offers, and whether it stays open.
use crate::tool::ToolType;
use vstd::prelude::*;

verus! {

/// How many panels the GUI holds.
pub const NUM_PANELS: usize = 1;

/// One GUI panel: whether it stays open, and the tool it offers.
#[derive(Clone, Copy, PartialEq, Eq, Structural, Debug)]
pub struct Panel {
    pub enabled: bool,
    pub tool: ToolType,
}

/// The tool-selection panel: open, offering the brush.
pub open spec fn spec_tool_panel() -> Panel {
    Panel { enabled: true, tool: ToolType::Brush }
}

/// Builds the tool-selection panel.
pub fn createToolPanel() -> (p: Panel)
    ensures
        p == spec_tool_panel(),
{
    Panel { enabled: true, tool: ToolType::Brush }
}

/// The GUI: its panels, in display order.
pub struct Gui {
    pub panels: Vec<Panel>,
}

impl Gui {
    pub fn new() -> (g: Gui)
        ensures
            g.panels@ == seq![spec_tool_panel()],
            g.panels@.len() == NUM_PANELS,
    {
        let mut panels: Vec<Panel> = Vec::new();
        panels.push(createToolPanel());
        proof {
            assert(panels@ =~= seq![spec_tool_panel()]);
        }
        Gui { panels }
    }
}

} // verus!
