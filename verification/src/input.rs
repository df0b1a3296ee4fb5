//! What a key does.
//!
//! The keys `w`, `s`, `a` and `d` move the camera along its direction and
//! across it; the up arrow lifts the first mesh of the first model. A key
//! acts when it goes down, not when it comes up. How far the camera or
//! the mesh moves is for whoever applies the action.

use vstd::prelude::*;
use crate::scene::RendererState;

verus! {

/// A step of the camera.
#[derive(Clone, Copy, Debug, PartialEq, Eq, Structural)]
pub enum CameraMove {
    /// Along the direction in which the camera looks.
    Forward,
    /// Against the direction in which the camera looks.
    Backward,
    /// Against the camera's right vector.
    Left,
    /// Along the camera's right vector.
    Right,
}

/// What a key event asks for.
#[derive(Clone, Copy, Debug, PartialEq, Eq, Structural)]
pub enum KeyAction {
    /// Nothing is to be done.
    Nothing,
    /// The camera takes a step.
    MoveCamera(CameraMove),
    /// The given mesh of the given model is lifted by a step.
    LiftMesh { model: usize, mesh: usize },
}

/// What the key of the given name asks for when it goes down, over a
/// scene whose first model has `first_model_meshes` meshes, if the scene
/// has a model.
pub open spec fn key_action(key: Seq<char>, first_model_meshes: Option<int>) -> KeyAction {
    if key == "w"@ {
        KeyAction::MoveCamera(CameraMove::Forward)
    } else if key == "s"@ {
        KeyAction::MoveCamera(CameraMove::Backward)
    } else if key == "a"@ {
        KeyAction::MoveCamera(CameraMove::Left)
    } else if key == "d"@ {
        KeyAction::MoveCamera(CameraMove::Right)
    } else if key == "ArrowUp"@ {
        match first_model_meshes {
            Some(meshes) => if meshes > 0 {
                KeyAction::LiftMesh { model: 0, mesh: 0 }
            } else {
                KeyAction::Nothing
            },
            None => KeyAction::Nothing,
        }
    } else {
        KeyAction::Nothing
    }
}

/// The number of meshes of the first model of a scene, if it has a model.
pub open spec fn first_model_meshes(state: RendererState) -> Option<int> {
    if state.models@.len() > 0 {
        Some(state.models@[0].meshes@.len() as int)
    } else {
        None
    }
}

/// What a key event asks for: the action of the key when it is pressed,
/// nothing when it is released.
pub fn handle_key_press(key_code: &String, is_pressed: bool, state: &RendererState) -> (action:
    KeyAction)
    ensures
        action == (if is_pressed {
            key_action(key_code@, first_model_meshes(*state))
        } else {
            KeyAction::Nothing
        }),
{
    if !is_pressed {
        return KeyAction::Nothing;
    }
    let forward = "w".to_owned();
    let backward = "s".to_owned();
    let left = "a".to_owned();
    let right = "d".to_owned();
    let up = "ArrowUp".to_owned();
    if *key_code == forward {
        KeyAction::MoveCamera(CameraMove::Forward)
    } else if *key_code == backward {
        KeyAction::MoveCamera(CameraMove::Backward)
    } else if *key_code == left {
        KeyAction::MoveCamera(CameraMove::Left)
    } else if *key_code == right {
        KeyAction::MoveCamera(CameraMove::Right)
    } else if *key_code == up {
        if state.models.len() > 0 && state.models[0].meshes.len() > 0 {
            KeyAction::LiftMesh { model: 0, mesh: 0 }
        } else {
            KeyAction::Nothing
        }
    } else {
        KeyAction::Nothing
    }
}

} // verus!
