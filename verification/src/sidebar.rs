use vstd::prelude::*;

verus! {

/// The task currently shown in the left sidebar; one task is visible at a time.
#[derive(Clone, Copy, Debug, PartialEq, Eq, Structural)]
pub enum SidebarPage {
    Model,
    Contact,
    Loads,
    Materials,
    Solve,
    Results,
}

impl SidebarPage {
    /// The page shown when the application starts.
    pub fn default_page() -> (page: SidebarPage)
        ensures
            page == SidebarPage::Model,
    {
        SidebarPage::Model
    }
}

/// The interaction tool that owns viewport clicks.
#[derive(Clone, Copy, Debug, PartialEq, Eq, Structural)]
pub enum ViewportTool {
    Selection,
    Assembly,
    LoadDirection,
}

/// Whether a sidebar node takes part in layout.
#[derive(Clone, Copy, Debug, PartialEq, Eq, Structural)]
pub enum DisplayMode {
    Flex,
    Collapsed,
}

/// The bit that stands for one page inside a visibility mask.
pub open spec fn page_bit(page: SidebarPage) -> u8 {
    match page {
        SidebarPage::Model => 1u8,
        SidebarPage::Contact => 2u8,
        SidebarPage::Loads => 4u8,
        SidebarPage::Materials => 8u8,
        SidebarPage::Solve => 16u8,
        SidebarPage::Results => 32u8,
    }
}

/// Visibility mask of a sidebar section: the set of pages that show it.
#[derive(Clone, Copy, Debug)]
pub struct SidebarPageContent {
    bits: u8,
}

impl SidebarPageContent {
    /// Whether the mask shows the given page.
    pub closed spec fn shows(self, page: SidebarPage) -> bool {
        self.bits & page_bit(page) != 0
    }

    /// Content shown on exactly one page.
    pub fn page(page: SidebarPage) -> (mask: SidebarPageContent)
        ensures
            forall|q: SidebarPage| #[trigger] mask.shows(q) <==> q == page,
    {
        let bits: u8 = match page {
            SidebarPage::Model => 1,
            SidebarPage::Contact => 2,
            SidebarPage::Loads => 4,
            SidebarPage::Materials => 8,
            SidebarPage::Solve => 16,
            SidebarPage::Results => 32,
        };
        let mask = SidebarPageContent { bits };
        assert forall|q: SidebarPage| #[trigger] mask.shows(q) <==> q == page by {
            lemma_single_bit(bits, page, q);
        }
        mask
    }

    /// The analysis shell shared by the Loads, Materials and Solve pages.
    pub fn analysis() -> (mask: SidebarPageContent)
        ensures
            forall|q: SidebarPage| #[trigger] mask.shows(q) <==> (q == SidebarPage::Loads
                || q == SidebarPage::Materials || q == SidebarPage::Solve),
    {
        let bits: u8 = 4 | 8 | 16;
        assert(bits == 28u8) by (bit_vector)
            requires bits == 4u8 | 8u8 | 16u8;
        let mask = SidebarPageContent { bits };
        assert forall|q: SidebarPage| #[trigger] mask.shows(q) <==> (q == SidebarPage::Loads
            || q == SidebarPage::Materials || q == SidebarPage::Solve) by {
            lemma_mask_bits(28u8, q);
        }
        mask
    }

    /// Part position controls, shared by the Model and Contact pages.
    pub fn part_position() -> (mask: SidebarPageContent)
        ensures
            forall|q: SidebarPage| #[trigger] mask.shows(q) <==> (q == SidebarPage::Model
                || q == SidebarPage::Contact),
    {
        let bits: u8 = 1 | 2;
        assert(bits == 3u8) by (bit_vector)
            requires bits == 1u8 | 2u8;
        let mask = SidebarPageContent { bits };
        assert forall|q: SidebarPage| #[trigger] mask.shows(q) <==> (q == SidebarPage::Model
            || q == SidebarPage::Contact) by {
            lemma_mask_bits(3u8, q);
        }
        mask
    }

    /// Whether content with this mask belongs to the given page.
    pub fn contains(self, page: SidebarPage) -> (shown: bool)
        ensures
            shown == self.shows(page),
    {
        let bit: u8 = match page {
            SidebarPage::Model => 1,
            SidebarPage::Contact => 2,
            SidebarPage::Loads => 4,
            SidebarPage::Materials => 8,
            SidebarPage::Solve => 16,
            SidebarPage::Results => 32,
        };
        self.bits & bit != 0
    }
}

proof fn lemma_single_bit(bits: u8, page: SidebarPage, q: SidebarPage)
    requires
        bits == page_bit(page),
    ensures
        (bits & page_bit(q) != 0) <==> q == page,
{
    lemma_mask_bits(bits, q);
}

/// What masking by a constant tells about one page's bit.
proof fn lemma_mask_bits(bits: u8, q: SidebarPage)
    ensures
        q == SidebarPage::Model ==> ((bits & page_bit(q) != 0) <==> bits % 2 == 1),
        q == SidebarPage::Contact ==> ((bits & page_bit(q) != 0) <==> (bits / 2) % 2 == 1),
        q == SidebarPage::Loads ==> ((bits & page_bit(q) != 0) <==> (bits / 4) % 2 == 1),
        q == SidebarPage::Materials ==> ((bits & page_bit(q) != 0) <==> (bits / 8) % 2 == 1),
        q == SidebarPage::Solve ==> ((bits & page_bit(q) != 0) <==> (bits / 16) % 2 == 1),
        q == SidebarPage::Results ==> ((bits & page_bit(q) != 0) <==> (bits / 32) % 2 == 1),
{
    assert((bits & 1u8 != 0) <==> bits % 2 == 1) by (bit_vector);
    assert((bits & 2u8 != 0) <==> (bits / 2) % 2 == 1) by (bit_vector);
    assert((bits & 4u8 != 0) <==> (bits / 4) % 2 == 1) by (bit_vector);
    assert((bits & 8u8 != 0) <==> (bits / 8) % 2 == 1) by (bit_vector);
    assert((bits & 16u8 != 0) <==> (bits / 16) % 2 == 1) by (bit_vector);
    assert((bits & 32u8 != 0) <==> (bits / 32) % 2 == 1) by (bit_vector);
}

/// Layout of a node with mask `pages` while `page` is active: inactive content
/// is removed from layout rather than hidden.
pub fn sidebar_page_display(pages: SidebarPageContent, page: SidebarPage) -> (display: DisplayMode)
    ensures
        display == (if pages.shows(page) { DisplayMode::Flex } else { DisplayMode::Collapsed }),
{
    if pages.contains(page) {
        DisplayMode::Flex
    } else {
        DisplayMode::Collapsed
    }
}

/// Pages on which a part can be positioned in the viewport.
pub open spec fn supports_part_position(page: SidebarPage) -> bool {
    page == SidebarPage::Model || page == SidebarPage::Contact
}

pub fn page_supports_part_position(page: SidebarPage) -> (supported: bool)
    ensures
        supported == supports_part_position(page),
{
    match page {
        SidebarPage::Model | SidebarPage::Contact => true,
        _ => false,
    }
}

/// Pages on which a viewport tool may stay active.
pub open spec fn supports_tool(page: SidebarPage, tool: ViewportTool) -> bool {
    match tool {
        ViewportTool::Selection => true,
        ViewportTool::Assembly => supports_part_position(page),
        ViewportTool::LoadDirection => page == SidebarPage::Loads,
    }
}

pub fn page_supports_tool(page: SidebarPage, tool: ViewportTool) -> (supported: bool)
    ensures
        supported == supports_tool(page, tool),
{
    match tool {
        ViewportTool::Selection => true,
        ViewportTool::Assembly => page_supports_part_position(page),
        ViewportTool::LoadDirection => match page {
            SidebarPage::Loads => true,
            _ => false,
        },
    }
}


/// What pressing a sidebar page button does.
#[derive(Clone, Copy, Debug, PartialEq, Eq, Structural)]
pub struct PageSwitch {
    /// The page shown afterwards.
    pub page: SidebarPage,
    /// The viewport tool afterwards.
    pub tool: ViewportTool,
    /// Whether the measurement transaction is dropped (the page changed).
    pub clear_measurement: bool,
}

/// Switches to the `pressed` page. A tool that the new page does not offer
/// falls back to selection, so the active tool always belongs to the active
/// page; the measurement box is cleared when the page changes.
pub fn press_page(current: SidebarPage, tool: ViewportTool, pressed: SidebarPage) -> (switch: PageSwitch)
    ensures
        switch.page == pressed,
        switch.clear_measurement == (current != pressed),
        switch.tool == (if supports_tool(pressed, tool) { tool } else { ViewportTool::Selection }),
        supports_tool(switch.page, switch.tool),
{
    let tool = if page_supports_tool(pressed, tool) {
        tool
    } else {
        ViewportTool::Selection
    };
    PageSwitch { page: pressed, tool, clear_measurement: current != pressed }
}

} // verus!
