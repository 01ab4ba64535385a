//! An abstract factory: families of related widgets are produced without
//! naming their concrete types. Each family paints its own button and
//! checkbox; a family is selected at run time from a closed set, and
//! asking for a family outside that set is construction-time misuse, ruled
//! out by contract and reported by the total selector.

use vstd::prelude::*;
use vstd::string::StringExecFns;

verus! {

/// A button widget.
pub trait Button: Sized {
    /// The text this button paints.
    spec fn label(&self) -> Seq<char>;

    /// Paints the button.
    fn paint(&self) -> (r: &'static str)
        ensures
            r@ == self.label(),
    ;
}

/// A checkbox widget.
pub trait Checkbox: Sized {
    /// The text this checkbox paints.
    spec fn label(&self) -> Seq<char>;

    /// Paints the checkbox.
    fn paint(&self) -> (r: &'static str)
        ensures
            r@ == self.label(),
    ;
}

pub struct WinButton;

impl Button for WinButton {
    open spec fn label(&self) -> Seq<char> {
        "windows os button"@
    }

    fn paint(&self) -> (r: &'static str) {
        "windows os button"
    }
}

pub struct MacButton;

impl Button for MacButton {
    open spec fn label(&self) -> Seq<char> {
        "mac os button"@
    }

    fn paint(&self) -> (r: &'static str) {
        "mac os button"
    }
}

pub struct WinCheckbox;

impl Checkbox for WinCheckbox {
    open spec fn label(&self) -> Seq<char> {
        "windows os checkbox"@
    }

    fn paint(&self) -> (r: &'static str) {
        "windows os checkbox"
    }
}

pub struct MacCheckbox;

impl Checkbox for MacCheckbox {
    open spec fn label(&self) -> Seq<char> {
        "mac os checkbox"@
    }

    fn paint(&self) -> (r: &'static str) {
        "mac os checkbox"
    }
}

/// A factory for one family of related widgets: its button and checkbox
/// always paint the family's own texts.
pub trait GUIFactory: Sized {
    type B: Button;

    type C: Checkbox;

    /// The text of every button this family produces.
    spec fn button_label(&self) -> Seq<char>;

    /// The text of every checkbox this family produces.
    spec fn checkbox_label(&self) -> Seq<char>;

    /// Produces this family's button.
    fn create_button(&self) -> (b: Self::B)
        ensures
            b.label() == self.button_label(),
    ;

    /// Produces this family's checkbox.
    fn create_checkbox(&self) -> (c: Self::C)
        ensures
            c.label() == self.checkbox_label(),
    ;
}

pub struct WinFactory;

impl GUIFactory for WinFactory {
    type B = WinButton;

    type C = WinCheckbox;

    open spec fn button_label(&self) -> Seq<char> {
        "windows os button"@
    }

    open spec fn checkbox_label(&self) -> Seq<char> {
        "windows os checkbox"@
    }

    fn create_button(&self) -> (b: WinButton) {
        WinButton
    }

    fn create_checkbox(&self) -> (c: WinCheckbox) {
        WinCheckbox
    }
}

pub struct MacFactory;

impl GUIFactory for MacFactory {
    type B = MacButton;

    type C = MacCheckbox;

    open spec fn button_label(&self) -> Seq<char> {
        "mac os button"@
    }

    open spec fn checkbox_label(&self) -> Seq<char> {
        "mac os checkbox"@
    }

    fn create_button(&self) -> (b: MacButton) {
        MacButton
    }

    fn create_checkbox(&self) -> (c: MacCheckbox) {
        MacCheckbox
    }
}

/// A button of whichever family was selected at run time.
pub enum OsButton {
    Win(WinButton),
    Mac(MacButton),
}

impl Button for OsButton {
    open spec fn label(&self) -> Seq<char> {
        match self {
            OsButton::Win(b) => b.label(),
            OsButton::Mac(b) => b.label(),
        }
    }

    fn paint(&self) -> (r: &'static str) {
        match self {
            OsButton::Win(b) => b.paint(),
            OsButton::Mac(b) => b.paint(),
        }
    }
}

/// A checkbox of whichever family was selected at run time.
pub enum OsCheckbox {
    Win(WinCheckbox),
    Mac(MacCheckbox),
}

impl Checkbox for OsCheckbox {
    open spec fn label(&self) -> Seq<char> {
        match self {
            OsCheckbox::Win(c) => c.label(),
            OsCheckbox::Mac(c) => c.label(),
        }
    }

    fn paint(&self) -> (r: &'static str) {
        match self {
            OsCheckbox::Win(c) => c.paint(),
            OsCheckbox::Mac(c) => c.paint(),
        }
    }
}

/// The closed set of widget families selectable at run time.
pub enum OsFactory {
    Win(WinFactory),
    Mac(MacFactory),
}

impl GUIFactory for OsFactory {
    type B = OsButton;

    type C = OsCheckbox;

    open spec fn button_label(&self) -> Seq<char> {
        match self {
            OsFactory::Win(f) => f.button_label(),
            OsFactory::Mac(f) => f.button_label(),
        }
    }

    open spec fn checkbox_label(&self) -> Seq<char> {
        match self {
            OsFactory::Win(f) => f.checkbox_label(),
            OsFactory::Mac(f) => f.checkbox_label(),
        }
    }

    fn create_button(&self) -> (b: OsButton) {
        match self {
            OsFactory::Win(f) => OsButton::Win(f.create_button()),
            OsFactory::Mac(f) => OsButton::Mac(f.create_button()),
        }
    }

    fn create_checkbox(&self) -> (c: OsCheckbox) {
        match self {
            OsFactory::Win(f) => OsCheckbox::Win(f.create_checkbox()),
            OsFactory::Mac(f) => OsCheckbox::Mac(f.create_checkbox()),
        }
    }
}

/// Exact equality of two strings.
fn str_eq(a: &str, b: &str) -> (r: bool)
    ensures
        r == (a@ == b@),
{
    let sa = String::from_str(a);
    let sb = String::from_str(b);
    sa == sb
}

pub struct Application;

impl Application {
    /// Selects the widget family named by `os`. The total companion of
    /// [`Application::new_gui_factory`]: a name outside the closed set
    /// yields `None`, and nothing is produced.
    pub fn try_new_gui_factory(os: &str) -> (factory: Option<OsFactory>)
        ensures
            os@ == "mac"@ ==> factory == Some(OsFactory::Mac(MacFactory)),
            os@ == "win"@ ==> factory == Some(OsFactory::Win(WinFactory)),
            os@ != "mac"@ && os@ != "win"@ ==> factory is None,
    {
        proof {
            reveal_strlit("mac");
            reveal_strlit("win");
            assert("mac"@[0] != "win"@[0]);
        }
        if str_eq(os, "mac") {
            Some(OsFactory::Mac(MacFactory))
        } else if str_eq(os, "win") {
            Some(OsFactory::Win(WinFactory))
        } else {
            None
        }
    }

    /// Selects the widget family named by `os`. Asking for a family the
    /// selector does not recognize is construction-time misuse and is ruled
    /// out by contract; a caller that cannot rule it out uses
    /// [`Application::try_new_gui_factory`] and stops on `None`.
    pub fn new_gui_factory(os: &str) -> (factory: OsFactory)
        requires
            os@ == "mac"@ || os@ == "win"@,
        ensures
            os@ == "mac"@ ==> factory == OsFactory::Mac(MacFactory),
            os@ == "win"@ ==> factory == OsFactory::Win(WinFactory),
    {
        proof {
            reveal_strlit("mac");
            reveal_strlit("win");
            assert("mac"@[0] != "win"@[0]);
        }
        if str_eq(os, "mac") {
            OsFactory::Mac(MacFactory)
        } else {
            OsFactory::Win(WinFactory)
        }
    }
}

} // verus!
