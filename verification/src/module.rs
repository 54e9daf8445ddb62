//! The parts that a storyboard is made of.

use crate::layer::Layer;
use crate::visuals::sprite::{Sprite, SpriteView};
use vstd::prelude::*;
use vstd::string::StringExecFns;

verus! {

/// The texts of some sprites, one after the other.
pub open spec fn scripts(sprites: Seq<SpriteView>) -> Seq<char>
    decreases sprites.len(),
{
    if sprites.len() == 0 {
        Seq::empty()
    } else {
        scripts(sprites.drop_last()) + sprites.last().script()
    }
}

/// A module as contracts see it.
pub struct ModuleView {
    pub layer: Layer,
    pub sprites: Seq<SpriteView>,
}

impl ModuleView {
    /// The text of the module in a script: the texts of its sprites in the
    /// order in which they were added.
    pub open spec fn text(self) -> Seq<char> {
        scripts(self.sprites)
    }
}

/// A part of a storyboard: some sprites on one layer.
///
/// A storyboard is put together from modules, so that each part of it can be
/// written, shared and reused by itself. The layer of a module is fixed when
/// it is made, and every sprite added to it is put on that layer.
pub struct Module {
    layer: Layer,
    sprites: Vec<Sprite>,
}

impl View for Module {
    type V = ModuleView;

    closed spec fn view(&self) -> ModuleView {
        ModuleView {
            layer: self.layer,
            sprites: self.sprites@.map_values(|sprite: Sprite| sprite@),
        }
    }
}

impl Module {
    /// A module without sprites on `layer`.
    pub fn new(layer: Layer) -> (module: Self)
        ensures
            module@ == (ModuleView { layer, sprites: Seq::empty() }),
    {
        let module = Module { layer, sprites: Vec::new() };
        assert(module@.sprites =~= Seq::<SpriteView>::empty());
        module
    }

    /// Adds `sprite` behind the sprites of the module, on the module's layer.
    pub fn push(&mut self, sprite: Sprite)
        ensures
            final(self)@ == (ModuleView {
                layer: old(self)@.layer,
                sprites: old(self)@.sprites.push(
                    SpriteView { layer: old(self)@.layer, ..sprite@ },
                ),
            }),
    {
        let mut sprite = sprite;
        sprite.set_layer(self.layer);
        self.sprites.push(sprite);
        assert(self@.sprites =~= old(self)@.sprites.push(sprite@));
    }

    /// Writes the sprites of the module as they stand in a script.
    pub fn output(&self) -> (text: String)
        ensures
            text@ == self@.text(),
    {
        let mut text = String::new();
        let mut i: usize = 0;
        assert(self@.sprites.take(0) =~= Seq::<SpriteView>::empty());
        while i < self.sprites.len()
            invariant
                i <= self.sprites@.len(),
                text@ == scripts(self@.sprites.take(i as int)),
            decreases self.sprites.len() - i,
        {
            text.append(self.sprites[i].to_str().as_str());
            proof {
                let more = self@.sprites.take(i + 1);
                assert(more.drop_last() =~= self@.sprites.take(i as int));
                assert(more.last() == self.sprites@[i as int]@);
            }
            i = i + 1;
        }
        assert(self@.sprites.take(i as int) =~= self@.sprites);
        text
    }

    /// The layer of the module.
    pub fn layer(&self) -> (layer: Layer)
        ensures
            layer == self@.layer,
    {
        self.layer
    }
}

} // verus!
