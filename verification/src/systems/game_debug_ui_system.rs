use vstd::prelude::*;

verus! {

/// Which camera the debug menu has chosen.
#[derive(Copy, Clone, Debug, PartialEq, Eq, Structural)]
pub enum DebugCameraType {
    Follow,
    Free,
}

/// The state of the debug menu: whether it shows, whether the zone list and the object
/// inspector are open, and which camera is chosen.
#[derive(Copy, Clone, Debug, PartialEq, Eq, Structural)]
pub struct GameDebugUiState {
    pub show_debug_ui: bool,
    pub show_zone_list: bool,
    pub show_object_inspector: bool,
    pub selected_camera_type: DebugCameraType,
}

impl Default for GameDebugUiState {
    fn default() -> (r: Self)
        ensures
            r == (GameDebugUiState {
                show_debug_ui: true,
                show_zone_list: false,
                show_object_inspector: false,
                selected_camera_type: DebugCameraType::Follow,
            }),
    {
        GameDebugUiState {
            show_debug_ui: true,
            show_zone_list: false,
            show_object_inspector: false,
            selected_camera_type: DebugCameraType::Follow,
        }
    }
}

/// What the object inspector is asked: to show and inspect the player, or to hide.
#[derive(Copy, Clone, Debug, PartialEq, Eq, Structural)]
pub enum DebugInspectorAction {
    ShowPlayer,
    Hide,
}

impl GameDebugUiState {
    /// Control with D pressed just now shows or hides the debug menu.
    pub fn handle_shortcut(&mut self, control_pressed: bool, d_just_pressed: bool)
        ensures
            *final(self) == (GameDebugUiState {
                show_debug_ui: if control_pressed && d_just_pressed {
                    !old(self).show_debug_ui
                } else {
                    old(self).show_debug_ui
                },
                ..*old(self)
            }),
    {
        if control_pressed && d_just_pressed {
            self.show_debug_ui = !self.show_debug_ui;
        }
    }

    /// Choosing a camera in the menu: returns the camera to switch every 3D camera to,
    /// where the choice differs from the one before.
    pub fn select_camera_type(&mut self, camera_type: DebugCameraType) -> (r: Option<DebugCameraType>)
        ensures
            *final(self) == (GameDebugUiState { selected_camera_type: camera_type, ..*old(self) }),
            r == if camera_type != old(self).selected_camera_type {
                Some(camera_type)
            } else {
                None
            },
    {
        let previous = self.selected_camera_type;
        self.selected_camera_type = camera_type;
        if camera_type != previous {
            Some(camera_type)
        } else {
            None
        }
    }

    /// Clicking the object inspector in the menu opens it (showing the player) or closes
    /// it.
    pub fn toggle_object_inspector(&mut self) -> (r: DebugInspectorAction)
        ensures
            *final(self) == (GameDebugUiState {
                show_object_inspector: !old(self).show_object_inspector,
                ..*old(self)
            }),
            r == if final(self).show_object_inspector {
                DebugInspectorAction::ShowPlayer
            } else {
                DebugInspectorAction::Hide
            },
    {
        self.show_object_inspector = !self.show_object_inspector;
        if self.show_object_inspector {
            DebugInspectorAction::ShowPlayer
        } else {
            DebugInspectorAction::Hide
        }
    }
}

} // verus!
