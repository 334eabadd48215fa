//! The plain-value parts of a plugin editor: the settings of an egui editor window, and the
//! window size an editor keeps in its state.

use vstd::prelude::*;

verus! {

/// A window size, either in logical pixels (`L`) or in physical pixels (`P`).
#[derive(Debug, Clone, Copy, PartialEq)]
pub enum Size<L, P> {
    Logical(L),
    Physical(P),
}

/// The size an editor stores after its window reports the size `logical` / `physical`: the
/// stored size keeps its kind (logical or physical) and takes the window's size of that kind.
pub fn synced_size<L, P>(stored: &Size<L, P>, logical: L, physical: P) -> (size: Size<L, P>)
    ensures
        size == (match stored {
            Size::Logical(_) => Size::<L, P>::Logical(logical),
            Size::Physical(_) => Size::<L, P>::Physical(physical),
        }),
{
    match stored {
        Size::Logical(_) => Size::Logical(logical),
        Size::Physical(_) => Size::Physical(physical),
    }
}

/// The settings of an egui editor window: its title, its graphics configuration (`G`), how it
/// may be resized (`M`), and the resize hint given to the host (`H`).
pub struct EguiNiceSettings<G, M, H> {
    pub title: String,
    pub graphics: G,
    pub resize_mode: M,
    pub resize_hint: H,
}

impl<G: Default, M: Default, H: Default> Default for EguiNiceSettings<G, M, H> {
    /// An empty title, and the default of each other setting.
    fn default() -> (settings: Self)
        ensures
            settings.title@ == Seq::<char>::empty(),
            call_ensures(G::default, (), settings.graphics),
            call_ensures(M::default, (), settings.resize_mode),
            call_ensures(H::default, (), settings.resize_hint),
    {
        EguiNiceSettings {
            title: String::new(),
            graphics: G::default(),
            resize_mode: M::default(),
            resize_hint: H::default(),
        }
    }
}

impl<G: Default, M: Default, H: Default> EguiNiceSettings<G, M, H> {
    /// The default settings: an empty title, and the default of each other setting.
    pub fn new() -> (settings: Self)
        ensures
            settings.title@ == Seq::<char>::empty(),
            call_ensures(G::default, (), settings.graphics),
            call_ensures(M::default, (), settings.resize_mode),
            call_ensures(H::default, (), settings.resize_hint),
    {
        Self::default()
    }
}

impl<G, M, H> EguiNiceSettings<G, M, H> {
    /// These settings with the window title `title`.
    pub fn with_tile(self, title: String) -> (settings: Self)
        ensures
            settings == (EguiNiceSettings { title, ..self }),
    {
        EguiNiceSettings { title, ..self }
    }

    /// These settings with the graphics configuration `config`.
    pub fn with_graphics_config(self, config: G) -> (settings: Self)
        ensures
            settings == (EguiNiceSettings { graphics: config, ..self }),
    {
        EguiNiceSettings { graphics: config, ..self }
    }

    /// These settings with the resize mode `resize_mode`.
    pub fn with_resize_mode(self, resize_mode: M) -> (settings: Self)
        ensures
            settings == (EguiNiceSettings { resize_mode, ..self }),
    {
        EguiNiceSettings { resize_mode, ..self }
    }

    /// These settings with the resize hint `resize_hint`.
    pub fn with_resize_hint(self, resize_hint: H) -> (settings: Self)
        ensures
            settings == (EguiNiceSettings { resize_hint, ..self }),
    {
        EguiNiceSettings { resize_hint, ..self }
    }
}

} // verus!
