//! The storyboard: modules by layer, and the text of the whole script.

use crate::layer::Layer;
use crate::module::{Module, ModuleView};
use vstd::prelude::*;
use vstd::string::StringExecFns;

verus! {

/// The texts of some modules, one after the other.
pub open spec fn modules_text(modules: Seq<ModuleView>) -> Seq<char>
    decreases modules.len(),
{
    if modules.len() == 0 {
        Seq::empty()
    } else {
        modules_text(modules.drop_last()) + modules.last().text()
    }
}

/// The modules as contracts see them.
pub open spec fn views(modules: Seq<Module>) -> Seq<ModuleView> {
    modules.map_values(|module: Module| module@)
}

/// Writes some modules one after the other.
pub fn modules_to_str(modules: &Vec<Module>) -> (text: String)
    ensures
        text@ == modules_text(views(modules@)),
{
    let mut text = String::new();
    let mut i: usize = 0;
    assert(views(modules@).take(0) =~= Seq::<ModuleView>::empty());
    while i < modules.len()
        invariant
            i <= modules@.len(),
            text@ == modules_text(views(modules@).take(i as int)),
        decreases modules.len() - i,
    {
        text.append(modules[i].output().as_str());
        proof {
            let more = views(modules@).take(i + 1);
            assert(more.drop_last() =~= views(modules@).take(i as int));
            assert(more.last() == modules@[i as int]@);
        }
        i = i + 1;
    }
    assert(views(modules@).take(i as int) =~= views(modules@));
    text
}

/// A storyboard as contracts see it: the modules of each layer in the order
/// in which they were added.
pub struct StoryboardView {
    pub background: Seq<ModuleView>,
    pub fail: Seq<ModuleView>,
    pub pass: Seq<ModuleView>,
    pub foreground: Seq<ModuleView>,
    pub overlay: Seq<ModuleView>,
}

impl StoryboardView {
    /// A storyboard without modules.
    pub open spec fn empty() -> StoryboardView {
        StoryboardView {
            background: Seq::empty(),
            fail: Seq::empty(),
            pass: Seq::empty(),
            foreground: Seq::empty(),
            overlay: Seq::empty(),
        }
    }

    /// The storyboard with one more module, behind the others of its layer.
    pub open spec fn with_module(self, module: ModuleView) -> StoryboardView {
        match module.layer {
            Layer::Background => StoryboardView {
                background: self.background.push(module),
                ..self
            },
            Layer::Fail => StoryboardView { fail: self.fail.push(module), ..self },
            Layer::Pass => StoryboardView { pass: self.pass.push(module), ..self },
            Layer::Foreground => StoryboardView {
                foreground: self.foreground.push(module),
                ..self
            },
            Layer::Overlay => StoryboardView { overlay: self.overlay.push(module), ..self },
        }
    }

    /// The script: the section of events, with the comment line of each layer
    /// followed by the modules of that layer, from the background to the
    /// overlay.
    pub open spec fn script(self) -> Seq<char> {
        "[Events]\n"@ + "//Background and Video events\n"@
            + "//Storyboard Layer 0 (Background)\n"@ + modules_text(self.background)
            + "//Storyboard Layer 1 (Fail)\n"@ + modules_text(self.fail)
            + "//Storyboard Layer 2 (Pass)\n"@ + modules_text(self.pass)
            + "//Storyboard Layer 3 (Foreground)\n"@ + modules_text(self.foreground)
            + "//Storyboard Layer 4 (Overlay)\n"@ + modules_text(self.overlay)
            + "//Storyboard Sound Samples\n"@
    }

    /// The script set out for reading: as `script`, with an empty line behind
    /// the modules of each of the first four layers.
    pub open spec fn display(self) -> Seq<char> {
        "[Events]\n"@ + "//Background and Video events\n"@
            + "//Storyboard Layer 0 (Background)\n"@ + modules_text(self.background) + "\n"@
            + "//Storyboard Layer 1 (Fail)\n"@ + modules_text(self.fail) + "\n"@
            + "//Storyboard Layer 2 (Pass)\n"@ + modules_text(self.pass) + "\n"@
            + "//Storyboard Layer 3 (Foreground)\n"@ + modules_text(self.foreground) + "\n"@
            + "//Storyboard Layer 4 (Overlay)\n"@ + modules_text(self.overlay)
            + "//Storyboard Sound Samples\n"@
    }
}

/// A storyboard: the modules that make it up, sorted by layer.
pub struct Storyboard {
    background_modules: Vec<Module>,
    fail_modules: Vec<Module>,
    pass_modules: Vec<Module>,
    foreground_modules: Vec<Module>,
    overlay_modules: Vec<Module>,
}

impl View for Storyboard {
    type V = StoryboardView;

    closed spec fn view(&self) -> StoryboardView {
        StoryboardView {
            background: views(self.background_modules@),
            fail: views(self.fail_modules@),
            pass: views(self.pass_modules@),
            foreground: views(self.foreground_modules@),
            overlay: views(self.overlay_modules@),
        }
    }
}

impl Storyboard {
    /// A storyboard without modules.
    pub fn new() -> (storyboard: Self)
        ensures
            storyboard@ == StoryboardView::empty(),
    {
        let storyboard = Storyboard {
            background_modules: Vec::new(),
            fail_modules: Vec::new(),
            pass_modules: Vec::new(),
            foreground_modules: Vec::new(),
            overlay_modules: Vec::new(),
        };
        assert(storyboard@.background =~= Seq::<ModuleView>::empty());
        assert(storyboard@.fail =~= Seq::<ModuleView>::empty());
        assert(storyboard@.pass =~= Seq::<ModuleView>::empty());
        assert(storyboard@.foreground =~= Seq::<ModuleView>::empty());
        assert(storyboard@.overlay =~= Seq::<ModuleView>::empty());
        storyboard
    }

    /// Adds `module` behind the modules of its layer.
    pub fn push(&mut self, module: Module)
        ensures
            final(self)@ == old(self)@.with_module(module@),
    {
        match module.layer() {
            Layer::Background => {
                self.background_modules.push(module);
                assert(self@.background =~= old(self)@.background.push(module@));
            },
            Layer::Fail => {
                self.fail_modules.push(module);
                assert(self@.fail =~= old(self)@.fail.push(module@));
            },
            Layer::Pass => {
                self.pass_modules.push(module);
                assert(self@.pass =~= old(self)@.pass.push(module@));
            },
            Layer::Foreground => {
                self.foreground_modules.push(module);
                assert(self@.foreground =~= old(self)@.foreground.push(module@));
            },
            Layer::Overlay => {
                self.overlay_modules.push(module);
                assert(self@.overlay =~= old(self)@.overlay.push(module@));
            },
        }
    }

    /// Writes the script of the storyboard.
    pub fn output(&self) -> (text: String)
        ensures
            text@ == self@.script(),
    {
        let mut text = String::from_str("[Events]\n");
        text.append("//Background and Video events\n");
        text.append("//Storyboard Layer 0 (Background)\n");
        text.append(modules_to_str(&self.background_modules).as_str());
        text.append("//Storyboard Layer 1 (Fail)\n");
        text.append(modules_to_str(&self.fail_modules).as_str());
        text.append("//Storyboard Layer 2 (Pass)\n");
        text.append(modules_to_str(&self.pass_modules).as_str());
        text.append("//Storyboard Layer 3 (Foreground)\n");
        text.append(modules_to_str(&self.foreground_modules).as_str());
        text.append("//Storyboard Layer 4 (Overlay)\n");
        text.append(modules_to_str(&self.overlay_modules).as_str());
        text.append("//Storyboard Sound Samples\n");
        text
    }

    /// Writes the script of the storyboard set out for reading.
    pub fn to_string(&self) -> (text: String)
        ensures
            text@ == self@.display(),
    {
        let mut text = String::from_str("[Events]\n");
        text.append("//Background and Video events\n");
        text.append("//Storyboard Layer 0 (Background)\n");
        text.append(modules_to_str(&self.background_modules).as_str());
        text.append("\n");
        text.append("//Storyboard Layer 1 (Fail)\n");
        text.append(modules_to_str(&self.fail_modules).as_str());
        text.append("\n");
        text.append("//Storyboard Layer 2 (Pass)\n");
        text.append(modules_to_str(&self.pass_modules).as_str());
        text.append("\n");
        text.append("//Storyboard Layer 3 (Foreground)\n");
        text.append(modules_to_str(&self.foreground_modules).as_str());
        text.append("\n");
        text.append("//Storyboard Layer 4 (Overlay)\n");
        text.append(modules_to_str(&self.overlay_modules).as_str());
        text.append("//Storyboard Sound Samples\n");
        text
    }
}

} // verus!
