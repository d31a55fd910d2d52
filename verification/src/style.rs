use vstd::prelude::*;

verus! {

/// The classes of button the shell draws. The colors and offsets themselves
/// are the toolkit's; what is decided here is which class gets which
/// treatment.
#[derive(Debug, Clone, Copy, PartialEq, Eq)]
pub enum Button {
    /// A filter toggle; drawn filled only while it is selected.
    Filter { selected: bool },
    /// A small icon button, drawn flat in a muted color.
    Icon,
    /// A destructive action, always drawn filled with a warning color.
    Destructive,
}

impl Button {
    /// Whether the resting style paints a background of its own rather than
    /// the default flat one.
    pub open spec fn spec_has_custom_background(self) -> bool {
        match self {
            Button::Filter { selected } => selected,
            Button::Icon => false,
            Button::Destructive => true,
        }
    }

    /// Whether hovering switches the text to the accent color rather than
    /// keeping the resting text color.
    pub open spec fn spec_hover_recolors(self) -> bool {
        match self {
            Button::Filter { selected } => !selected,
            Button::Icon => true,
            Button::Destructive => false,
        }
    }

    /// See `spec_has_custom_background`: a selected filter and a destructive
    /// button are filled; everything else keeps the default background.
    pub fn has_custom_background(&self) -> (r: bool)
        ensures
            r == self.spec_has_custom_background(),
    {
        match self {
            Button::Filter { selected } => *selected,
            Button::Icon => false,
            Button::Destructive => true,
        }
    }

    /// See `spec_hover_recolors`: an icon button and an unselected filter
    /// take the accent color under the pointer; the filled buttons keep
    /// their text color.
    pub fn hover_recolors(&self) -> (r: bool)
        ensures
            r == self.spec_hover_recolors(),
    {
        match self {
            Button::Filter { selected } => !*selected,
            Button::Icon => true,
            Button::Destructive => false,
        }
    }
}

/// A button recolors its text under the pointer exactly when its resting
/// style paints no background of its own: hovering highlights the flat
/// buttons and leaves the filled ones alone.
pub proof fn lemma_hover_recolors_iff_flat(b: Button)
    ensures
        b.spec_hover_recolors() <==> !b.spec_has_custom_background(),
{
}

} // verus!
