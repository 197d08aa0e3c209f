use vstd::prelude::*;
use vstd::string::StringExecFns;

verus! {

#[derive(Debug, PartialEq, Eq, PartialOrd, Ord, Hash, Clone, Copy, Structural)]
pub enum WindowControlType {
    Minimize,
    Restore,
    Maximize,
    Close,
}

#[derive(Debug, PartialEq, Eq, PartialOrd, Ord, Hash, Clone, Copy, Structural)]
pub enum WindowControlState {
    Normal,
    Hover,
    Active,
    Disable,
}

/// How the window looks.
#[derive(Debug, PartialEq, Eq, Clone, Copy, Structural)]
pub enum WindowAppearance {
    Light,
    VibrantLight,
    Dark,
    VibrantDark,
}

pub open spec fn control_name(control_type: WindowControlType) -> Seq<char> {
    match control_type {
        WindowControlType::Minimize => "minimize"@,
        WindowControlType::Restore => "restore"@,
        WindowControlType::Maximize => "maximize"@,
        WindowControlType::Close => "close"@,
    }
}

pub open spec fn state_text(control_state: WindowControlState) -> Seq<char> {
    match control_state {
        WindowControlState::Normal => "normal"@,
        WindowControlState::Hover => "hover"@,
        WindowControlState::Active => "active"@,
        WindowControlState::Disable => "disable"@,
    }
}

pub open spec fn style_text(appearance: WindowAppearance) -> Seq<char> {
    match appearance {
        WindowAppearance::Light => "light"@,
        WindowAppearance::VibrantLight => "light"@,
        WindowAppearance::Dark => "dark"@,
        WindowAppearance::VibrantDark => "dark"@,
    }
}

/// The path of a control's icon: the backdrop icon of the style where the
/// window is not active or the control is disabled, else the icon of the
/// control's type and state in that style.
pub open spec fn icon_path(
    control_type: WindowControlType,
    control_state: WindowControlState,
    window_active: bool,
    appearance: WindowAppearance,
) -> Seq<char> {
    if !window_active || control_state == WindowControlState::Disable {
        "icons/window_controls/backdrop-"@ + style_text(appearance) + ".svg"@
    } else {
        "icons/window_controls/"@ + control_name(control_type) + "-"@ + state_text(control_state)
            + "-"@ + style_text(appearance) + ".svg"@
    }
}

impl WindowControlType {
    pub fn name(&self) -> (name: &'static str)
        ensures
            name@ == control_name(*self),
    {
        match self {
            WindowControlType::Minimize => "minimize",
            WindowControlType::Restore => "restore",
            WindowControlType::Maximize => "maximize",
            WindowControlType::Close => "close",
        }
    }

    /// The type under which the control shows: the one that maximizes shows
    /// as the one that restores while the window is maximized, and the other
    /// way round while it is not.
    pub fn shown(self, maximized: bool) -> (shown: WindowControlType)
        ensures
            shown == match self {
                WindowControlType::Maximize => if maximized {
                    WindowControlType::Restore
                } else {
                    WindowControlType::Maximize
                },
                WindowControlType::Restore => if maximized {
                    WindowControlType::Restore
                } else {
                    WindowControlType::Maximize
                },
                other => other,
            },
    {
        match self {
            WindowControlType::Maximize | WindowControlType::Restore => {
                if maximized {
                    WindowControlType::Restore
                } else {
                    WindowControlType::Maximize
                }
            },
            other => other,
        }
    }
}

impl WindowControlState {
    pub fn name(&self) -> (name: &'static str)
        ensures
            name@ == state_text(*self),
    {
        match self {
            WindowControlState::Normal => "normal",
            WindowControlState::Hover => "hover",
            WindowControlState::Active => "active",
            WindowControlState::Disable => "disable",
        }
    }
}

impl WindowAppearance {
    pub fn style(&self) -> (name: &'static str)
        ensures
            name@ == style_text(*self),
    {
        match self {
            WindowAppearance::Light => "light",
            WindowAppearance::VibrantLight => "light",
            WindowAppearance::Dark => "dark",
            WindowAppearance::VibrantDark => "dark",
        }
    }
}

/// One of the buttons in the title bar.
#[derive(Debug, Clone, Copy)]
pub struct WindowControl {
    pub control_type: WindowControlType,
    pub control_state: WindowControlState,
}

impl WindowControl {
    /// The path of the icon to show for the control.
    pub fn icon(&self, window_active: bool, appearance: WindowAppearance) -> (path: String)
        ensures
            path@ == icon_path(self.control_type, self.control_state, window_active, appearance),
    {
        let style = appearance.style();
        if !window_active || self.control_state == WindowControlState::Disable {
            let mut path = String::from_str("icons/window_controls/backdrop-");
            path.append(style);
            path.append(".svg");
            path
        } else {
            let mut path = String::from_str("icons/window_controls/");
            path.append(self.control_type.name());
            path.append("-");
            path.append(self.control_state.name());
            path.append("-");
            path.append(style);
            path.append(".svg");
            path
        }
    }
}

/// The pages of the main window.
#[derive(Debug, Eq, PartialEq, Clone, Copy, Structural)]
pub enum Pages {
    FileListPage,
    SettingsPage,
    ServerInfoPage,
}

impl Default for Pages {
    fn default() -> (page: Pages)
        ensures
            page == Pages::FileListPage,
    {
        Pages::FileListPage
    }
}

} // verus!
