use vstd::prelude::*;

verus! {

/// The built-in scenes.
#[derive(Debug, Clone, Copy, PartialEq, Eq, Structural)]
pub enum SceneType {
    Basic,
    Complex,
}

impl SceneType {
    /// The scene called `scene_name` (`basic` or `complex`), or `None` for any
    /// other name.
    pub fn from(scene_name: &str) -> (r: Option<SceneType>)
        ensures
            r == Some(SceneType::Basic) <==> scene_name@ == "basic"@,
            r == Some(SceneType::Complex) <==> scene_name@ == "complex"@,
            r.is_none() <==> (scene_name@ != "basic"@ && scene_name@ != "complex"@),
    {
        let name = scene_name.to_owned();
        proof {
            reveal_strlit("basic");
            reveal_strlit("complex");
            assert("basic"@.len() != "complex"@.len());
        }
        if name == "basic".to_owned() {
            Some(SceneType::Basic)
        } else if name == "complex".to_owned() {
            Some(SceneType::Complex)
        } else {
            None
        }
    }
}

} // verus!
