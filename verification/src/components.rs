//! The declarations of the three framework UI components: the template each one renders, the
//! file that holds the template, and its stylesheets. The overlay plugins hold them to these
//! values before they let the framework build the screens.
use vstd::prelude::*;

verus! {

/// The window frame drawn around the game view.
pub struct FrameComponent {
    pub template_name: &'static str,
    pub template_file: &'static str,
    pub styles: &'static [&'static str],
}

/// The heads-up display shown while the local ship flies.
pub struct HudComponent {
    pub template_name: &'static str,
    pub template_file: &'static str,
    pub styles: &'static [&'static str],
}

/// The main menu with the Play button and the connection status.
pub struct MenuComponent {
    pub template_name: &'static str,
    pub template_file: &'static str,
    pub styles: &'static [&'static str],
}

/// The frame component as the framework registers it.
pub fn frame_component() -> (c: FrameComponent)
    ensures
        c.template_name@ == "app-frame"@,
        c.template_file@ == "frame.component.html"@,
        c.styles@.len() == 1,
        c.styles@[0]@ == "frame.css"@,
{
    FrameComponent {
        template_name: "app-frame",
        template_file: "frame.component.html",
        styles: &["frame.css"],
    }
}

/// The heads-up display component as the framework registers it.
pub fn hud_component() -> (c: HudComponent)
    ensures
        c.template_name@ == "app-hud"@,
        c.template_file@ == "hud.component.html"@,
        c.styles@.len() == 1,
        c.styles@[0]@ == "hud.css"@,
{
    HudComponent {
        template_name: "app-hud",
        template_file: "hud.component.html",
        styles: &["hud.css"],
    }
}

/// The menu component as the framework registers it.
pub fn menu_component() -> (c: MenuComponent)
    ensures
        c.template_name@ == "app-menu"@,
        c.template_file@ == "menu.component.html"@,
        c.styles@.len() == 1,
        c.styles@[0]@ == "menu.css"@,
{
    MenuComponent {
        template_name: "app-menu",
        template_file: "menu.component.html",
        styles: &["menu.css"],
    }
}

} // verus!
