//! Shell-state models: the tab bar, the file tab that routes picker
//! messages, and the plain enumerations the shell shares with the
//! library (themes, board sides, canvas layers).

use vstd::prelude::*;

use crate::picker::{picker_step, FilePicker, FilePickerAction, FilePickerMessage};

verus! {

broadcast use vstd::string::group_string_axioms;

/// The color themes the application offers.
#[derive(Debug, PartialEq, Eq, Clone, Copy, Structural)]
pub enum AppTheme {
    Dark,
    Light,
    Dracula,
    Nord,
    SolarizedLight,
    SolarizedDark,
    GruvboxLight,
    GruvboxDark,
    CatppuccinLatte,
    CatppuccinFrappe,
    CatppuccinMacchiato,
    CatppuccinMocha,
    TokyoNight,
    TokyoNightStorm,
    TokyoNightLight,
    KanagawaWave,
    KanagawaDragon,
    KanagawaLotus,
    Moonfly,
    Nightfly,
    Oxocarbon,
    Ferra,
}

impl Default for AppTheme {
    /// The application starts dark.
    fn default() -> (r: Self)
        ensures
            r == AppTheme::Dark,
    {
        AppTheme::Dark
    }
}

/// How many sides of the board carry copper.
#[derive(Debug, Clone, PartialEq, Eq, Copy, Structural)]
pub enum PcbSides {
    OneSide,
    TwoSide,
}

impl Default for PcbSides {
    fn default() -> (r: Self)
        ensures
            r == PcbSides::OneSide,
    {
        PcbSides::OneSide
    }
}

/// The four physical layers the canvas can show.
#[derive(Debug, Clone, Copy, PartialEq, Eq, Structural)]
pub enum CanvasLayer {
    Top,
    Bottom,
    Drill,
    Outline,
}

/// Which tab of the tab bar is active.
#[derive(Debug, Clone, Copy, PartialEq, Eq, Structural)]
pub enum TabBarId {
    Files,
    Milling,
    Drilling,
}

/// A message delivered to the tab bar.
#[derive(Debug, Clone)]
pub enum TabBarMessage {
    TabSelected(TabBarId),
    TabFileMessage(TabFileMessage),
}

/// A message delivered to the file tab.
#[derive(Debug, Clone)]
pub enum TabFileMessage {
    PcbTypeChange(PcbSides),
    FilePickerMessage(CanvasLayer, FilePickerMessage),
}

/// The drilling tab; a placeholder panel.
#[derive(Debug)]
pub struct Drilling {}

impl Drilling {
    pub fn tab_label(&self) -> (r: &'static str)
        ensures
            r@ == "Drilling"@,
    {
        "Drilling"
    }
}

impl Default for Drilling {
    fn default() -> (r: Self)
        ensures
            r == (Drilling {  }),
    {
        Drilling {  }
    }
}

/// The milling tab; a placeholder panel.
#[derive(Debug)]
pub struct Milling {}

impl Milling {
    pub fn tab_label(&self) -> (r: &'static str)
        ensures
            r@ == "Milling"@,
    {
        "Milling"
    }
}

impl Default for Milling {
    fn default() -> (r: Self)
        ensures
            r == (Milling {  }),
    {
        Milling {  }
    }
}

/// The file tab: the board-side choice and one file picker per layer.
#[derive(Debug)]
pub struct Files {
    pub pcb_sides: PcbSides,
    pub top_file_picker: FilePicker,
    pub bot_file_picker: FilePicker,
    pub drill_file_picker: FilePicker,
    pub outline_file_picker: FilePicker,
}

/// The picker the file tab owns for a canvas layer.
pub open spec fn picker_of(f: Files, l: CanvasLayer) -> FilePicker {
    match l {
        CanvasLayer::Top => f.top_file_picker,
        CanvasLayer::Bottom => f.bot_file_picker,
        CanvasLayer::Drill => f.drill_file_picker,
        CanvasLayer::Outline => f.outline_file_picker,
    }
}

/// All pickers but the one of layer `l` are unchanged, and so is the
/// board-side choice.
pub open spec fn others_unchanged(o: Files, n: Files, l: CanvasLayer) -> bool {
    &&& n.pcb_sides == o.pcb_sides
    &&& !(l is Top) ==> n.top_file_picker == o.top_file_picker
    &&& !(l is Bottom) ==> n.bot_file_picker == o.bot_file_picker
    &&& !(l is Drill) ==> n.drill_file_picker == o.drill_file_picker
    &&& !(l is Outline) ==> n.outline_file_picker == o.outline_file_picker
}

/// The relation between the file tab before and after handling a
/// message, and the action handed back.
///
/// A board-side change re-enables the top picker exactly for two-sided
/// boards and returns no action; a picker message is routed to the
/// picker of its layer and that picker's action is handed back tagged
/// with the layer.
pub open spec fn files_step(
    o: Files,
    n: Files,
    message: TabFileMessage,
    act: Option<(CanvasLayer, FilePickerAction)>,
) -> bool {
    match message {
        TabFileMessage::PcbTypeChange(sides) => {
            &&& act is None
            &&& n.pcb_sides == sides
            &&& n.top_file_picker.enabled() == (sides == PcbSides::TwoSide)
            &&& n.top_file_picker.file_spec() == o.top_file_picker.file_spec()
            &&& n.top_file_picker.filter_name_spec() == o.top_file_picker.filter_name_spec()
            &&& n.top_file_picker.filter_pattern_spec() == o.top_file_picker.filter_pattern_spec()
            &&& n.bot_file_picker == o.bot_file_picker
            &&& n.drill_file_picker == o.drill_file_picker
            &&& n.outline_file_picker == o.outline_file_picker
        },
        TabFileMessage::FilePickerMessage(layer, m) => {
            &&& (act matches Some((l, a)) && l == layer && picker_step(
                picker_of(o, layer),
                picker_of(n, layer),
                m,
                a,
            ))
            &&& others_unchanged(o, n, layer)
        },
    }
}

impl Files {
    /// Applies one message: see [`files_step`].
    pub fn update(&mut self, message: TabFileMessage) -> (act: Option<
        (CanvasLayer, FilePickerAction),
    >)
        ensures
            files_step(*old(self), *final(self), message, act),
    {
        match message {
            TabFileMessage::PcbTypeChange(sides) => {
                self.pcb_sides = sides;
                self.top_file_picker.enable(match sides {
                    PcbSides::TwoSide => true,
                    PcbSides::OneSide => false,
                });
                None
            },
            TabFileMessage::FilePickerMessage(layer, m) => {
                let act = match layer {
                    CanvasLayer::Top => self.top_file_picker.update(m),
                    CanvasLayer::Bottom => self.bot_file_picker.update(m),
                    CanvasLayer::Drill => self.drill_file_picker.update(m),
                    CanvasLayer::Outline => self.outline_file_picker.update(m),
                };
                Some((layer, act))
            },
        }
    }

    /// The tab's label.
    pub fn tab_label(&self) -> (r: &'static str)
        ensures
            r@ == "Files"@,
    {
        "Files"
    }

    /// Owned copies of a list of extension strings.
    pub fn vec_str(vec: Vec<&str>) -> (r: Vec<String>)
        ensures
            r@.len() == vec@.len(),
            forall|i: int| 0 <= i < r@.len() ==> (#[trigger] r@[i])@ == vec@[i]@,
    {
        let mut r: Vec<String> = Vec::with_capacity(vec.len());
        let mut i: usize = 0;
        while i < vec.len()
            invariant
                i <= vec@.len(),
                r@.len() == i,
                forall|k: int| 0 <= k < i ==> (#[trigger] r@[k])@ == vec@[k]@,
            decreases vec@.len() - i,
        {
            r.push(vec[i].to_string());
            i = i + 1;
        }
        r
    }
}

impl Default for Files {
    /// One-sided board, one picker per layer with its file filter, the
    /// top picker disabled until a two-sided board is chosen.
    fn default() -> (r: Self)
        ensures
            r.pcb_sides == PcbSides::OneSide,
            !r.top_file_picker.enabled(),
            r.bot_file_picker.enabled(),
            r.drill_file_picker.enabled(),
            r.outline_file_picker.enabled(),
            r.top_file_picker.file_spec() == Seq::<char>::empty(),
            r.bot_file_picker.file_spec() == Seq::<char>::empty(),
            r.drill_file_picker.file_spec() == Seq::<char>::empty(),
            r.outline_file_picker.file_spec() == Seq::<char>::empty(),
            r.top_file_picker.filter_name_spec() == "Gerber File"@,
            r.bot_file_picker.filter_name_spec() == "Gerber File"@,
            r.drill_file_picker.filter_name_spec() == "Excellon file"@,
            r.outline_file_picker.filter_name_spec() == "Gerber File"@,
    {
        let mut result = Files {
            pcb_sides: PcbSides::OneSide,
            top_file_picker: FilePicker::new(
                None,
                "Gerber File".to_string(),
                Files::vec_str(vec!["gtl", "GTL", "gbr", "GBR"]),
            ),
            bot_file_picker: FilePicker::new(
                None,
                "Gerber File".to_string(),
                Files::vec_str(vec!["gbl", "GBL", "gbr", "GBR"]),
            ),
            drill_file_picker: FilePicker::new(
                None,
                "Excellon file".to_string(),
                Files::vec_str(vec!["drl", "DRL", "txt", "TXT"]),
            ),
            outline_file_picker: FilePicker::new(
                None,
                "Gerber File".to_string(),
                Files::vec_str(vec!["gko", "GKO", "gbr", "GBR"]),
            ),
        };
        result.top_file_picker.enable(false);
        result
    }
}

/// The tab bar: its tabs and which one is active.
#[derive(Debug)]
pub struct TabBar {
    pub files: Files,
    pub milling: Milling,
    pub drilling: Drilling,
    pub active_tab: TabBarId,
}

impl TabBar {
    /// Applies one message: a tab selection switches the active tab; a
    /// file-tab message is routed to the file tab and its action handed
    /// back.
    pub fn update(&mut self, message: TabBarMessage) -> (act: Option<
        (CanvasLayer, FilePickerAction),
    >)
        ensures
            match message {
                TabBarMessage::TabSelected(id) => {
                    &&& final(self).active_tab == id
                    &&& final(self).files == old(self).files
                    &&& act is None
                },
                TabBarMessage::TabFileMessage(m) => {
                    &&& final(self).active_tab == old(self).active_tab
                    &&& files_step(old(self).files, final(self).files, m, act)
                },
            },
    {
        match message {
            TabBarMessage::TabSelected(id) => {
                self.active_tab = id;
                None
            },
            TabBarMessage::TabFileMessage(m) => self.files.update(m),
        }
    }
}

impl Default for TabBar {
    /// The file tab is active at start.
    fn default() -> (r: Self)
        ensures
            r.active_tab == TabBarId::Files,
            r.files.pcb_sides == PcbSides::OneSide,
    {
        TabBar {
            files: Files::default(),
            milling: Milling::default(),
            drilling: Drilling::default(),
            active_tab: TabBarId::Files,
        }
    }
}

} // verus!
