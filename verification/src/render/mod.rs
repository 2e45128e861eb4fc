use vstd::prelude::*;

verus! {

/// Draws the windows.
pub struct SceneRenderer;

/// Draws the cursor.
pub struct CursorRenderer;

/// The renderer: scene and cursor.
pub struct Renderer {
    scene: SceneRenderer,
    cursor: CursorRenderer,
    initialized: bool,
}

impl Renderer {
    pub closed spec fn is_initialized(&self) -> bool {
        self.initialized
    }

    pub fn new() -> (r: Renderer)
        ensures
            !r.is_initialized(),
    {
        Renderer { scene: SceneRenderer, cursor: CursorRenderer, initialized: false }
    }

    pub fn initialize(&mut self)
        ensures
            final(self).is_initialized(),
    {
        self.initialized = true;
    }

    /// The renderer's name, which tells whether it was initialized.
    pub fn name(&self) -> (n: &'static str)
        ensures
            n@ == (if self.is_initialized() {
                "renderer-stub"@
            } else {
                "renderer-stub(uninitialized)"@
            }),
    {
        if self.initialized {
            "renderer-stub"
        } else {
            "renderer-stub(uninitialized)"
        }
    }
}

impl Default for Renderer {
    fn default() -> (r: Renderer)
        ensures
            !r.is_initialized(),
    {
        Renderer::new()
    }
}

} // verus!
