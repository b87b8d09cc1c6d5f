//! The file picker model: the state and decision logic behind one
//! layer-file selector.  The surrounding shell owns the actual dialog;
//! this type decides what each incoming message does to the state and
//! which action the shell must perform next.

use vstd::prelude::*;

verus! {

broadcast use vstd::string::group_string_axioms;

/// A message delivered to a file picker.
#[derive(Debug, Clone)]
pub enum FilePickerMessage {
    /// The browse button was pressed.
    BrowseFile,
    /// The clear button was pressed.
    ClearFile,
    /// The file dialog closed, with the chosen path if any.
    OnFileDialogClose(Option<String>),
}

/// What the shell must do after a picker update.
#[derive(Debug, Clone)]
pub enum FilePickerAction {
    /// Open the file dialog with the picker's filters.
    Run,
    /// A file was chosen; load it.
    FileSelected(String),
    /// The selection was cleared; drop the layer.
    ClearFile,
    /// Nothing to do.
    Idle,
}

/// One layer-file selector: the chosen file, whether the control is
/// enabled, and the dialog filter it opens with.
#[derive(Debug)]
pub struct FilePicker {
    file: String,
    is_enable: bool,
    filter_name: String,
    filter_pattern: Vec<String>,
}

/// The relation between a picker before and after handling a message,
/// and the action handed back: exactly one case per message.
pub open spec fn picker_step(
    o: FilePicker,
    n: FilePicker,
    msg: FilePickerMessage,
    act: FilePickerAction,
) -> bool {
    match msg {
        FilePickerMessage::BrowseFile => n == o && act is Run,
        FilePickerMessage::ClearFile => {
            &&& n.file_spec() == Seq::<char>::empty()
            &&& n.enabled() == o.enabled()
            &&& n.filter_name_spec() == o.filter_name_spec()
            &&& n.filter_pattern_spec() == o.filter_pattern_spec()
            &&& act is ClearFile
        },
        FilePickerMessage::OnFileDialogClose(opt) => match opt {
            Some(p) => {
                &&& n.file_spec() == p@
                &&& n.enabled() == o.enabled()
                &&& n.filter_name_spec() == o.filter_name_spec()
                &&& n.filter_pattern_spec() == o.filter_pattern_spec()
                &&& (act matches FilePickerAction::FileSelected(q) && q@ == p@)
            },
            None => n == o && act is Idle,
        },
    }
}

impl FilePicker {
    /// The chosen file's path text; empty when none is chosen.
    pub closed spec fn file_spec(&self) -> Seq<char> {
        self.file@
    }

    /// Whether the control is enabled.
    pub closed spec fn enabled(&self) -> bool {
        self.is_enable
    }

    /// The display name of the dialog filter.
    pub closed spec fn filter_name_spec(&self) -> Seq<char> {
        self.filter_name@
    }

    /// The extensions of the dialog filter.
    pub closed spec fn filter_pattern_spec(&self) -> Seq<Seq<char>> {
        self.filter_pattern@.map_values(|s: String| s@)
    }

    /// A picker that starts with the given file (or none) and filter,
    /// enabled.
    pub fn new(file: Option<String>, filter_name: String, filter_pattern: Vec<String>) -> (r: Self)
        ensures
            r.file_spec() == match file {
                Some(f) => f@,
                None => Seq::<char>::empty(),
            },
            r.enabled(),
            r.filter_name_spec() == filter_name@,
            r.filter_pattern_spec() == filter_pattern@.map_values(|s: String| s@),
    {
        let file_or_empty = match file {
            Some(f) => f,
            None => new_empty_string(),
        };
        FilePicker { file: file_or_empty, is_enable: true, filter_name, filter_pattern }
    }

    /// Applies one message: see [`picker_step`].
    pub fn update(&mut self, msg: FilePickerMessage) -> (act: FilePickerAction)
        ensures
            picker_step(*old(self), *final(self), msg, act),
    {
        match msg {
            FilePickerMessage::BrowseFile => FilePickerAction::Run,
            FilePickerMessage::ClearFile => {
                self.file = new_empty_string();
                FilePickerAction::ClearFile
            },
            FilePickerMessage::OnFileDialogClose(opt) => match opt {
                Some(p) => {
                    let chosen = clone_string(&p);
                    self.file = p;
                    FilePickerAction::FileSelected(chosen)
                },
                None => FilePickerAction::Idle,
            },
        }
    }

    /// Enables or disables the control.
    pub fn enable(&mut self, is_enable: bool)
        ensures
            final(self).enabled() == is_enable,
            final(self).file_spec() == old(self).file_spec(),
            final(self).filter_name_spec() == old(self).filter_name_spec(),
            final(self).filter_pattern_spec() == old(self).filter_pattern_spec(),
    {
        self.is_enable = is_enable;
    }

    /// The chosen file's path text.
    pub fn file_to_string(&self) -> (r: &str)
        ensures
            r@ == self.file_spec(),
    {
        self.file.as_str()
    }

    /// Whether the control is enabled, for display.
    pub fn is_enabled(&self) -> (b: bool)
        ensures
            b == self.enabled(),
    {
        self.is_enable
    }

    /// The dialog filter, for the shell that opens the dialog.
    pub fn filter(&self) -> (r: (&String, &Vec<String>))
        ensures
            r.0@ == self.filter_name_spec(),
            r.1@.map_values(|s: String| s@) == self.filter_pattern_spec(),
    {
        (&self.filter_name, &self.filter_pattern)
    }
}

/// An empty string, with its emptiness visible to the verifier.
fn new_empty_string() -> (r: String)
    ensures
        r@ == Seq::<char>::empty(),
{
    let r = "".to_string();
    proof {
        reveal_strlit("");
        assert(r@ =~= Seq::<char>::empty());
    }
    r
}

/// A fresh string with the same text.
fn clone_string(s: &String) -> (r: String)
    ensures
        r@ == s@,
{
    s.as_str().to_string()
}

} // verus!
