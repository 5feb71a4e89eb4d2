//! Renderable components and their staged builder.
//!
//! A `RenderComponent` describes one drawable: the path of its texture (the
//! cache key, the one mandatory field), a screen position, a layering hint,
//! and an optional click handler. A component is immutable once built and is
//! constructed only through `RenderComponentBuilder`, whose setters each
//! consume the builder and hand back the new staged value.
//!
//! Click handlers are named by plain tokens: the surrounding program owns the
//! actual nullary callbacks and keys them by token, and the frame logic only
//! decides which tokens to invoke. The logic never introspects a handler.

use vstd::prelude::*;

verus! {

/// The mathematical value of a `RenderComponent`.
pub ghost struct RenderComponentView {
    pub texture_path: Seq<char>,
    pub x: u32,
    pub y: u32,
    pub z: u32,
    pub on_click: Option<u64>,
}

/// One drawable: texture reference, position, layering order, optional click
/// handler token. Immutable after construction.
pub struct RenderComponent {
    texture_path: String,
    x: u32,
    y: u32,
    z: u32,
    on_click: Option<u64>,
}

impl View for RenderComponent {
    type V = RenderComponentView;

    closed spec fn view(&self) -> RenderComponentView {
        RenderComponentView {
            texture_path: self.texture_path@,
            x: self.x,
            y: self.y,
            z: self.z,
            on_click: self.on_click,
        }
    }
}

impl RenderComponent {
    /// The click-handler token, if this component has a handler.
    pub fn on_click_fn(&self) -> (r: Option<u64>)
        ensures
            r == self@.on_click,
    {
        self.on_click
    }

    /// The path of the texture this component draws; the cache key.
    pub fn texture_path(&self) -> (r: &String)
        ensures
            r@ == self@.texture_path,
    {
        &self.texture_path
    }

    /// The horizontal screen position.
    pub fn x(&self) -> (r: u32)
        ensures
            r == self@.x,
    {
        self.x
    }

    /// The vertical screen position.
    pub fn y(&self) -> (r: u32)
        ensures
            r == self@.y,
    {
        self.y
    }

    /// The layering hint (advisory; not consumed by the draw pass).
    pub fn z(&self) -> (r: u32)
        ensures
            r == self@.z,
    {
        self.z
    }
}

/// Why building a `RenderComponent` failed.
#[derive(Clone, Copy, Debug, PartialEq, Eq, Structural)]
pub enum BuildError {
    /// `build` was called although `texture` was never supplied.
    MissingTexturePath,
}

/// The mathematical value of a partially configured builder.
pub ghost struct RenderComponentBuilderView {
    pub texture: Option<Seq<char>>,
    pub x: Option<u32>,
    pub y: Option<u32>,
    pub z: Option<u32>,
    pub on_click: Option<u64>,
}

/// Staged, fluent construction of a `RenderComponent`. `texture` is the one
/// mandatory field; every other field defaults. Each setter consumes the
/// builder, so a partially configured stage cannot be reused inconsistently.
pub struct RenderComponentBuilder {
    texture: Option<String>,
    x: Option<u32>,
    y: Option<u32>,
    z: Option<u32>,
    on_click: Option<u64>,
}

impl View for RenderComponentBuilder {
    type V = RenderComponentBuilderView;

    closed spec fn view(&self) -> RenderComponentBuilderView {
        RenderComponentBuilderView {
            texture: self.texture.deep_view(),
            x: self.x,
            y: self.y,
            z: self.z,
            on_click: self.on_click,
        }
    }
}

/// The value an optional builder field contributes to the built component.
pub open spec fn or_zero(field: Option<u32>) -> u32 {
    match field {
        Some(v) => v,
        None => 0u32,
    }
}

impl Default for RenderComponentBuilder {
    /// A fresh builder with no field set.
    fn default() -> (b: Self)
        ensures
            b@ == (RenderComponentBuilderView {
                texture: None,
                x: None,
                y: None,
                z: None,
                on_click: None,
            }),
    {
        RenderComponentBuilder { texture: None, x: None, y: None, z: None, on_click: None }
    }
}

impl RenderComponentBuilder {
    /// A fresh builder with no field set.
    pub fn new() -> (b: Self)
        ensures
            b@ == (RenderComponentBuilderView {
                texture: None,
                x: None,
                y: None,
                z: None,
                on_click: None,
            }),
    {
        Self::default()
    }

    /// Supply the texture path, the mandatory field.
    pub fn texture(self, texture_path: &str) -> (b: Self)
        ensures
            b@ == (RenderComponentBuilderView { texture: Some(texture_path@), ..self@ }),
    {
        RenderComponentBuilder { texture: Some(texture_path.to_owned()), ..self }
    }

    /// Supply the horizontal screen position.
    pub fn x(self, x: u32) -> (b: Self)
        ensures
            b@ == (RenderComponentBuilderView { x: Some(x), ..self@ }),
    {
        RenderComponentBuilder { x: Some(x), ..self }
    }

    /// Supply the vertical screen position.
    pub fn y(self, y: u32) -> (b: Self)
        ensures
            b@ == (RenderComponentBuilderView { y: Some(y), ..self@ }),
    {
        RenderComponentBuilder { y: Some(y), ..self }
    }

    /// Supply the layering hint.
    pub fn z(self, z: u32) -> (b: Self)
        ensures
            b@ == (RenderComponentBuilderView { z: Some(z), ..self@ }),
    {
        RenderComponentBuilder { z: Some(z), ..self }
    }

    /// Supply the click-handler token.
    pub fn on_click(self, on_click: u64) -> (b: Self)
        ensures
            b@ == (RenderComponentBuilderView { on_click: Some(on_click), ..self@ }),
    {
        RenderComponentBuilder { on_click: Some(on_click), ..self }
    }

    /// Consume the builder. Yields the component when the texture path was
    /// supplied; reports the missing mandatory field otherwise, rather than
    /// aborting. Unset position and layer fields default to zero.
    pub fn build(self) -> (r: Result<RenderComponent, BuildError>)
        ensures
            r is Ok <==> self@.texture is Some,
            self@.texture is None ==> r == Err::<RenderComponent, BuildError>(
                BuildError::MissingTexturePath,
            ),
            self@.texture is Some ==> (r->Ok_0)@ == (RenderComponentView {
                texture_path: self@.texture->Some_0,
                x: or_zero(self@.x),
                y: or_zero(self@.y),
                z: or_zero(self@.z),
                on_click: self@.on_click,
            }),
    {
        match self.texture {
            None => Err(BuildError::MissingTexturePath),
            Some(texture_path) => Ok(
                RenderComponent {
                    texture_path,
                    x: self.x.unwrap_or(0),
                    y: self.y.unwrap_or(0),
                    z: self.z.unwrap_or(0),
                    on_click: self.on_click,
                },
            ),
        }
    }
}

} // verus!
