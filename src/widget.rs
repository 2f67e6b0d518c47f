use vstd::prelude::*;

verus! {

/// The icon token shown while the state is on, or off.
pub open spec fn icon_for(on: bool) -> Seq<char> {
    if on {
        "toggle_on"@
    } else {
        "toggle_off"@
    }
}

/// The icon token for a state, as a string.
pub fn icon_name(on: bool) -> (r: &'static str)
    ensures
        r@ == icon_for(on),
{
    if on {
        proof {
            reveal_strlit("toggle_on");
        }
        "toggle_on"
    } else {
        proof {
            reveal_strlit("toggle_off");
        }
        "toggle_off"
    }
}

/// What a button widget shows: the block it belongs to, a label and an icon token.
pub struct ButtonView {
    pub name: Seq<char>,
    pub text: Seq<char>,
    pub icon: Seq<char>,
}

/// A clickable widget that shows a label beside an icon.
pub struct ButtonWidget {
    name: String,
    text: String,
    icon: String,
}

impl View for ButtonWidget {
    type V = ButtonView;

    closed spec fn view(&self) -> ButtonView {
        ButtonView { name: self.name@, text: self.text@, icon: self.icon@ }
    }
}

impl ButtonWidget {
    /// A widget named `name`, whose clicks carry that name, with no label and no icon.
    pub fn new(name: &str) -> (r: ButtonWidget)
        ensures
            r@ == (ButtonView { name: name@, text: Seq::empty(), icon: Seq::empty() }),
    {
        ButtonWidget { name: name.to_owned(), text: String::new(), icon: String::new() }
    }

    /// The same widget, labelled `text`.
    pub fn with_text(self, text: &str) -> (r: ButtonWidget)
        ensures
            r@ == (ButtonView { text: text@, ..self@ }),
    {
        ButtonWidget { text: text.to_owned(), ..self }
    }

    /// Replaces the icon token.
    pub fn set_icon(&mut self, icon: &str)
        ensures
            final(self)@ == (ButtonView { icon: icon@, ..old(self)@ }),
    {
        self.icon = icon.to_owned();
    }

    /// The name that clicks on this widget carry.
    pub fn name(&self) -> (r: &str)
        ensures
            r@ == self@.name,
    {
        self.name.as_str()
    }

    /// The label.
    pub fn text(&self) -> (r: &str)
        ensures
            r@ == self@.text,
    {
        self.text.as_str()
    }

    /// The icon token.
    pub fn icon(&self) -> (r: &str)
        ensures
            r@ == self@.icon,
    {
        self.icon.as_str()
    }
}

} // verus!
