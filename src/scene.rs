use vstd::prelude::*;

verus! {

/// The named mode the shell is in. The shell starts in `Main`, and any scene
/// can be reached from any other.
#[derive(Clone, Copy, Debug, PartialEq, Eq, Structural)]
pub enum Scene {
    Main,
    Play,
    Options,
}

/// The name under which a scene is shown.
pub open spec fn scene_name(s: Scene) -> Seq<char> {
    match s {
        Scene::Main => "Main"@,
        Scene::Play => "Play"@,
        Scene::Options => "Options"@,
    }
}

impl Scene {
    /// The name of the scene, as shown in the main panel.
    pub fn fmt(&self) -> (r: String)
        ensures
            r@ == scene_name(*self),
    {
        match self {
            Scene::Main => String::from_str("Main"),
            Scene::Play => String::from_str("Play"),
            Scene::Options => String::from_str("Options"),
        }
    }
}

} // verus!
