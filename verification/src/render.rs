//! The layout renderer: pure functions that lay one dashboard page out as a
//! list of drawing commands.
//!
//! A page is a header (hostname or IP address), a rotating loading arc, a
//! separator line, three labeled gauge rows and a footer with uptime and CPU
//! temperature.  Each function's output is pinned down exactly by a spec
//! function of the snapshot and the frame counter, so rendering the same
//! snapshot twice yields the same commands.

use vstd::prelude::*;

use crate::system::{spec_ip_text, spec_uptime_text, Ratio, SysInfo};
use crate::text::{
    i64_to_string_pad2, spec_decimal, spec_pad_left, spec_signed_decimal, u64_to_string_pad3,
};

verus! {

/// An absolute pixel position on the panel.
#[derive(Clone, Copy, PartialEq, Eq, Structural, Debug)]
pub struct Point {
    pub x: i32,
    pub y: i32,
}

/// A width and height in pixels.
#[derive(Clone, Copy, PartialEq, Eq, Structural, Debug)]
pub struct Size {
    pub width: u32,
    pub height: u32,
}

/// The two fonts the dashboard uses.
#[derive(Clone, Copy, PartialEq, Eq, Structural, Debug)]
pub enum FontId {
    Font6x10,
    Font7x14Bold,
}

/// One buffered drawing operation: a text run, a one-pixel line, a filled
/// rectangle, or a one-pixel arc given by its start and sweep angles in
/// degrees.
#[derive(Clone, PartialEq, Eq, Debug)]
pub enum DrawCmd {
    Text { text: String, pos: Point, font: FontId },
    Line { start: Point, end: Point },
    Rect { top_left: Point, size: Size },
    Arc { top_left: Point, diameter: u32, start_deg: u16, sweep_deg: u16 },
}

/// The mathematical image of a [`DrawCmd`], with text as a character
/// sequence.
pub enum DrawCmdView {
    Text { text: Seq<char>, pos: Point, font: FontId },
    Line { start: Point, end: Point },
    Rect { top_left: Point, size: Size },
    Arc { top_left: Point, diameter: u32, start_deg: u16, sweep_deg: u16 },
}

impl View for DrawCmd {
    type V = DrawCmdView;

    open spec fn view(&self) -> DrawCmdView {
        match self {
            DrawCmd::Text { text, pos, font } => DrawCmdView::Text {
                text: text@,
                pos: *pos,
                font: *font,
            },
            DrawCmd::Line { start, end } => DrawCmdView::Line { start: *start, end: *end },
            DrawCmd::Rect { top_left, size } => DrawCmdView::Rect {
                top_left: *top_left,
                size: *size,
            },
            DrawCmd::Arc { top_left, diameter, start_deg, sweep_deg } => DrawCmdView::Arc {
                top_left: *top_left,
                diameter: *diameter,
                start_deg: *start_deg,
                sweep_deg: *sweep_deg,
            },
        }
    }
}

impl DeepView for DrawCmd {
    type V = DrawCmdView;

    open spec fn deep_view(&self) -> DrawCmdView {
        self.view()
    }
}

/// Rounding of a temperature in hundredths of a degree to the nearest whole
/// degree, halves away from zero.
pub open spec fn spec_round_centi(c: int) -> int {
    if c >= 0 {
        (c + 50) / 100
    } else {
        -((-c + 50) / 100)
    }
}

/// Rounds hundredths of a degree to whole degrees.
pub fn round_centi(c: i64) -> (r: i64)
    ensures
        r == spec_round_centi(c as int),
        r != i64::MIN,
{
    if c >= 0 {
        ((c as u64 + 50) / 100) as i64
    } else {
        let m: i128 = -(c as i128);
        let q: i128 = (m + 50) / 100;
        (-q) as i64
    }
}

/// The gauge value column for a utilization: its rounded percentage
/// right-aligned to width three, with the percent sign.
pub open spec fn spec_percent_text(value: Ratio) -> Seq<char> {
    spec_pad_left(spec_decimal(value.spec_percent() as nat), 3) + seq!['%']
}

/// Renders the gauge value column for `value`.
pub fn format_percent(value: &Ratio) -> (r: String)
    requires
        value.wf(),
    ensures
        r@ == spec_percent_text(*value),
{
    proof {
        value.lemma_gauge_in_range();
    }
    let p = value.percent();
    let mut s = u64_to_string_pad3(p as u64);
    s.append("%");
    proof {
        reveal_strlit("%");
        assert(s@ =~= spec_percent_text(*value));
    }
    s
}

/// The three commands of one gauge row: the label, the proportional filled
/// bar on its 74-pixel track, and the value column at the right edge.
pub open spec fn spec_bar_cmds(top_left: Point, label: Seq<char>, text: Seq<char>, value: Ratio)
    -> Seq<DrawCmdView> {
    seq![
        DrawCmdView::Text {
            text: label,
            pos: Point { x: top_left.x, y: (top_left.y + 5) as i32 },
            font: FontId::Font6x10,
        },
        DrawCmdView::Rect {
            top_left: Point { x: (top_left.x + 26) as i32, y: top_left.y },
            size: Size { width: value.spec_bar_width() as u32, height: 4 },
        },
        DrawCmdView::Text {
            text: text,
            pos: Point { x: 104, y: (top_left.y + 5) as i32 },
            font: FontId::Font6x10,
        },
    ]
}

/// Lays out one gauge row: `label`, a filled bar `(value)·74` pixels wide,
/// and the pre-rendered value column `text`.
pub fn render_bar_graph(top_left: Point, label: &str, text: String, value: &Ratio) -> (cmds: Vec<
    DrawCmd,
>)
    requires
        value.wf(),
        top_left.x + 26 <= i32::MAX,
        top_left.y + 5 <= i32::MAX,
    ensures
        cmds.deep_view() == spec_bar_cmds(top_left, label@, text@, *value),
{
    let mut cmds: Vec<DrawCmd> = Vec::new();
    cmds.push(
        DrawCmd::Text {
            text: label.to_owned(),
            pos: Point { x: top_left.x, y: top_left.y + 5 },
            font: FontId::Font6x10,
        },
    );
    cmds.push(
        DrawCmd::Rect {
            top_left: Point { x: top_left.x + 26, y: top_left.y },
            size: Size { width: value.bar_width(), height: 4 },
        },
    );
    cmds.push(
        DrawCmd::Text { text, pos: Point { x: 104, y: top_left.y + 5 }, font: FontId::Font6x10 },
    );
    proof {
        assert(cmds.deep_view() =~= spec_bar_cmds(top_left, label@, text@, *value));
    }
    cmds
}

/// The footer's uptime column.
pub open spec fn spec_uptime_cmd_text(up: nat) -> Seq<char> {
    seq!['U', 'p', ':', ' '] + spec_uptime_text(up)
}

/// The footer's temperature column: the rounded whole degrees right-aligned
/// to width two, between a fixed prefix and the degree unit.
pub open spec fn spec_temp_cmd_text(centi: int) -> Seq<char> {
    seq!['C', ':', ' '] + spec_pad_left(spec_signed_decimal(spec_round_centi(centi)), 2)
        + seq!['°', 'C']
}

/// The shared body of both pages: the CPU, memory and disk gauge rows (disk
/// shows `N/A` over an empty bar when the root mount is absent) and the
/// uptime / temperature footer.
pub open spec fn spec_monitor_cmds(sys: SysInfo) -> Seq<DrawCmdView> {
    let disk_row = match sys.disk {
        Some(r) => spec_bar_cmds(
            Point { x: 0, y: 39 },
            seq!['D', 'i', 's', 'k'],
            spec_percent_text(r),
            r,
        ),
        None => spec_bar_cmds(
            Point { x: 0, y: 39 },
            seq!['D', 'i', 's', 'k'],
            seq!['N', '/', 'A'],
            Ratio { num: 0, den: 1 },
        ),
    };
    spec_bar_cmds(Point { x: 0, y: 19 }, seq!['C', 'P', 'U'], spec_percent_text(sys.cpu), sys.cpu)
        + spec_bar_cmds(
        Point { x: 0, y: 29 },
        seq!['M', 'e', 'm'],
        spec_percent_text(sys.memory),
        sys.memory,
    ) + disk_row + seq![
        DrawCmdView::Text {
            text: spec_uptime_cmd_text(sys.uptime_seconds as nat),
            pos: Point { x: 0, y: 58 },
            font: FontId::Font6x10,
        },
        DrawCmdView::Text {
            text: spec_temp_cmd_text(sys.temperature_centi as int),
            pos: Point { x: 84, y: 58 },
            font: FontId::Font6x10,
        },
    ]
}

/// Lays out the gauge rows and the footer for the current snapshot.
pub fn render_system_monitor(sys: &SysInfo) -> (cmds: Vec<DrawCmd>)
    requires
        sys.wf(),
    ensures
        cmds.deep_view() == spec_monitor_cmds(*sys),
{
    let cpu = sys.cpu_usage();
    let mut cmds = render_bar_graph(
        Point { x: 0, y: 19 },
        "CPU",
        format_percent(&cpu),
        &cpu,
    );
    let mem = sys.memory_usage();
    let mut mem_row = render_bar_graph(
        Point { x: 0, y: 29 },
        "Mem",
        format_percent(&mem),
        &mem,
    );
    cmds.append(&mut mem_row);
    let mut disk_row = match sys.root_disk_usage() {
        Some(usage) => render_bar_graph(
            Point { x: 0, y: 39 },
            "Disk",
            format_percent(&usage),
            &usage,
        ),
        None => render_bar_graph(Point { x: 0, y: 39 }, "Disk", ("N/A").to_owned(), &Ratio::zero()),
    };
    cmds.append(&mut disk_row);
    let mut up_text = ("Up: ").to_owned();
    let up = sys.uptime();
    up_text.append(up.as_str());
    cmds.push(
        DrawCmd::Text { text: up_text, pos: Point { x: 0, y: 58 }, font: FontId::Font6x10 },
    );
    let rounded = round_centi(sys.cpu_temp());
    let mut temp_text = ("C: ").to_owned();
    let degrees = i64_to_string_pad2(rounded);
    temp_text.append(degrees.as_str());
    temp_text.append("°C");
    cmds.push(
        DrawCmd::Text { text: temp_text, pos: Point { x: 84, y: 58 }, font: FontId::Font6x10 },
    );
    proof {
        reveal_strlit("CPU");
        reveal_strlit("Mem");
        reveal_strlit("Disk");
        reveal_strlit("N/A");
        reveal_strlit("Up: ");
        reveal_strlit("C: ");
        reveal_strlit("°C");
        assert(("CPU")@ =~= seq!['C', 'P', 'U']);
        assert(("Mem")@ =~= seq!['M', 'e', 'm']);
        assert(("Disk")@ =~= seq!['D', 'i', 's', 'k']);
        assert(("N/A")@ =~= seq!['N', '/', 'A']);
        assert(("Up: ")@ =~= seq!['U', 'p', ':', ' ']);
        assert(("C: ")@ =~= seq!['C', ':', ' ']);
        assert(("°C")@ =~= seq!['°', 'C']);
        assert(cmds.deep_view() =~= spec_monitor_cmds(*sys));
    }
    cmds
}

/// The commands of one whole page: the loading arc in the top-right corner
/// (advancing 36 degrees per frame, a fixed 245-degree sweep), the header
/// text, the separator line, then the shared monitor body.
pub open spec fn spec_page_cmds(page: u8, sys: SysInfo, frame: u16) -> Seq<DrawCmdView> {
    let header = if page == 0 {
        sys.hostname@
    } else {
        spec_ip_text(sys.ip)
    };
    seq![
        DrawCmdView::Arc {
            top_left: Point { x: 119, y: 0 },
            diameter: 9,
            start_deg: (frame * 36) as u16,
            sweep_deg: 245,
        },
        DrawCmdView::Text {
            text: header,
            pos: Point { x: 0, y: 9 },
            font: FontId::Font7x14Bold,
        },
        DrawCmdView::Line { start: Point { x: 0, y: 12 }, end: Point { x: 128, y: 12 } },
    ] + spec_monitor_cmds(sys)
}

/// Rendering is a pure function of the snapshot, the page and the frame
/// counter: two renderings of the same inputs, with no refresh in between,
/// produce identical command lists.
pub proof fn lemma_render_round_trip(
    sys: SysInfo,
    page: u8,
    frame: u16,
    first: Seq<DrawCmdView>,
    second: Seq<DrawCmdView>,
)
    requires
        first == spec_page_cmds(page, sys, frame),
        second == spec_page_cmds(page, sys, frame),
    ensures
        first == second,
{
}

/// Lays out the first page, whose header is the host name.
pub fn render_page_1(sys: &SysInfo, frame: u16) -> (cmds: Vec<DrawCmd>)
    requires
        sys.wf(),
        frame < 10,
    ensures
        cmds.deep_view() == spec_page_cmds(0, *sys, frame),
{
    render_page_with_header(sys, frame, sys.hostname().clone(), Ghost(0))
}

/// Lays out the second page, whose header is the primary IPv4 address.
pub fn render_page_2(sys: &SysInfo, frame: u16) -> (cmds: Vec<DrawCmd>)
    requires
        sys.wf(),
        frame < 10,
    ensures
        cmds.deep_view() == spec_page_cmds(1, *sys, frame),
{
    render_page_with_header(sys, frame, sys.ip_addr().to_text(), Ghost(1))
}

/// Shared page layout around a pre-rendered header.
fn render_page_with_header(sys: &SysInfo, frame: u16, header: String, page: Ghost<u8>) -> (cmds:
    Vec<DrawCmd>)
    requires
        sys.wf(),
        frame < 10,
        header@ == (if page@ == 0 {
            sys.hostname@
        } else {
            spec_ip_text(sys.ip)
        }),
    ensures
        cmds.deep_view() == spec_page_cmds(page@, *sys, frame),
{
    let mut cmds: Vec<DrawCmd> = Vec::new();
    cmds.push(
        DrawCmd::Arc {
            top_left: Point { x: 119, y: 0 },
            diameter: 9,
            start_deg: frame * 36,
            sweep_deg: 245,
        },
    );
    cmds.push(DrawCmd::Text { text: header, pos: Point { x: 0, y: 9 }, font: FontId::Font7x14Bold });
    cmds.push(
        DrawCmd::Line { start: Point { x: 0, y: 12 }, end: Point { x: 128, y: 12 } },
    );
    let mut body = render_system_monitor(sys);
    cmds.append(&mut body);
    proof {
        assert(cmds.deep_view() =~= spec_page_cmds(page@, *sys, frame));
    }
    cmds
}

} // verus!
