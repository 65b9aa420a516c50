use vstd::prelude::*;
use vstd::pervasive::VecAdditionalExecFns;
use crate::scene::{Placement, Slide, Widget, standard_placement, text_widget};

verus! {

/// The one way an operation can fail: the slide id names no slide.
#[derive(Clone, Copy, Debug, PartialEq, Eq, Structural)]
pub enum SceneError {
    NotFound { slide_id: u64 },
}

/// Abstract state of a scene. Slide `k` (for `1 <= k <= slides.len()`) has
/// the widgets `slides[k - 1]`; ids are issued in order from 1, so the last
/// issued id is `slides.len()`. `current` is the id of the shown slide.
pub struct SceneModel {
    pub slides: Seq<Seq<Widget>>,
    pub current: Option<u64>,
}

impl SceneModel {
    /// The id most recently issued (0 before any slide exists).
    pub open spec fn last_id(self) -> nat {
        self.slides.len()
    }

    pub open spec fn has_slide(self, id: u64) -> bool {
        1 <= id && id <= self.slides.len()
    }

    pub open spec fn widgets(self, id: u64) -> Seq<Widget> {
        self.slides[id - 1]
    }

    pub open spec fn wf(self) -> bool {
        &&& self.slides.len() <= u64::MAX
        &&& match self.current {
            Some(id) => self.has_slide(id),
            None => true,
        }
    }

    /// Outcome of an operation that needs slide `id` to exist.
    pub open spec fn lookup(self, id: u64) -> Result<(), SceneError> {
        if self.has_slide(id) {
            Ok(())
        } else {
            Err(SceneError::NotFound { slide_id: id })
        }
    }

    /// State after a new empty slide is registered under `last_id() + 1`.
    pub open spec fn with_new_slide(self) -> SceneModel {
        SceneModel { slides: self.slides.push(Seq::empty()), current: self.current }
    }

    /// State after slide `id` is shown; unchanged when it does not exist.
    pub open spec fn with_shown(self, id: u64) -> SceneModel {
        if self.has_slide(id) {
            SceneModel { slides: self.slides, current: Some(id) }
        } else {
            self
        }
    }

    /// State after `w` is appended to slide `id`; unchanged when it does not exist.
    pub open spec fn with_widget(self, id: u64, w: Widget) -> SceneModel {
        if self.has_slide(id) {
            SceneModel {
                slides: self.slides.update(id - 1, self.widgets(id).push(w)),
                current: self.current,
            }
        } else {
            self
        }
    }
}

/// The scene's state: slide registry, id allocator and the shown slide.
/// Slide `k` is stored at index `k - 1` of `slides`; the shown slide is
/// held by id and resolved on each read, so it always reflects later edits.
pub struct Scene {
    slides: Vec<Slide>,
    next_slide_id: u64,
    current_slide: Option<u64>,
}

impl Scene {
    pub closed spec fn model(&self) -> SceneModel {
        SceneModel {
            slides: self.slides@.map_values(|s: Slide| s.widgets@),
            current: self.current_slide,
        }
    }

    pub closed spec fn wf(&self) -> bool {
        &&& self.next_slide_id as nat == self.slides@.len()
        &&& self.model().wf()
    }

    pub fn new() -> (s: Scene)
        ensures
            s.wf(),
            s.model().slides == Seq::<Seq<Widget>>::empty(),
            s.model().current is None,
    {
        let s = Scene { slides: Vec::new(), next_slide_id: 0, current_slide: None };
        assert(s.model().slides =~= Seq::<Seq<Widget>>::empty());
        s
    }
}

/// The operation layer over one scene. Callers that share it between
/// threads hold it under one lock, which makes every operation atomic.
pub struct MyMediaController {
    scene: Scene,
}

impl View for MyMediaController {
    type V = SceneModel;

    closed spec fn view(&self) -> SceneModel {
        self.scene.model()
    }
}

impl MyMediaController {
    pub closed spec fn wf(&self) -> bool {
        self.scene.wf()
    }

    pub fn new(scene: Scene) -> (c: MyMediaController)
        requires
            scene.wf(),
        ensures
            c.wf(),
            c@ == scene.model(),
    {
        MyMediaController { scene }
    }

    /// The id most recently issued by `add_slide` (0 before the first).
    pub fn last_slide_id(&self) -> (r: u64)
        requires
            self.wf(),
        ensures
            r as nat == self@.last_id(),
    {
        self.scene.next_slide_id
    }

    /// Registers a new empty slide and returns its id, one more than the
    /// last id issued.
    pub fn add_slide(&mut self) -> (id: u64)
        requires
            old(self).wf(),
            old(self)@.last_id() < u64::MAX,
        ensures
            final(self).wf(),
            id as nat == old(self)@.last_id() + 1,
            final(self)@ == old(self)@.with_new_slide(),
    {
        let id = self.scene.next_slide_id + 1;
        self.scene.next_slide_id = id;
        self.scene.slides.push(Slide { widgets: Vec::new() });
        assert(self@.slides =~= old(self)@.with_new_slide().slides);
        id
    }

    /// Makes slide `slide_id` the shown one; `NotFound` if no such slide.
    pub fn show_slide(&mut self, slide_id: u64) -> (r: Result<(), SceneError>)
        requires
            old(self).wf(),
        ensures
            final(self).wf(),
            r == old(self)@.lookup(slide_id),
            final(self)@ == old(self)@.with_shown(slide_id),
    {
        if 1 <= slide_id && slide_id <= self.scene.next_slide_id {
            self.scene.current_slide = Some(slide_id);
            Ok(())
        } else {
            Err(SceneError::NotFound { slide_id })
        }
    }

    /// Appends a text widget with the given placement to slide `slide_id`;
    /// `NotFound` if no such slide.
    pub fn add_placed_widget(&mut self, slide_id: u64, text: String, placement: Placement) -> (r:
        Result<(), SceneError>)
        requires
            old(self).wf(),
        ensures
            final(self).wf(),
            r == old(self)@.lookup(slide_id),
            final(self)@ == old(self)@.with_widget(slide_id, text_widget(slide_id, text, placement)),
    {
        if 1 <= slide_id && slide_id <= self.scene.next_slide_id {
            let i = (slide_id - 1) as usize;
            let w = Widget::text(slide_id, text, placement);
            let mut slide = Slide { widgets: Vec::new() };
            self.scene.slides.set_and_swap(i, &mut slide);
            slide.widgets.push(w);
            self.scene.slides.set_and_swap(i, &mut slide);
            assert(self@.slides =~= old(self)@.with_widget(slide_id, text_widget(slide_id, text, placement)).slides);
            Ok(())
        } else {
            Err(SceneError::NotFound { slide_id })
        }
    }

    /// Appends a text widget at the standard placement to slide `slide_id`;
    /// `NotFound` if no such slide.
    pub fn add_widgets_to_slide(&mut self, slide_id: u64, text: String) -> (r: Result<(), SceneError>)
        requires
            old(self).wf(),
        ensures
            final(self).wf(),
            r == old(self)@.lookup(slide_id),
            final(self)@ == old(self)@.with_widget(slide_id, text_widget(slide_id, text, standard_placement())),
    {
        self.add_placed_widget(slide_id, text, Placement::standard())
    }
    /// The slide registered under `slide_id`, if any.
    pub fn slide(&self, slide_id: u64) -> (r: Option<&Slide>)
        requires
            self.wf(),
        ensures
            self@.has_slide(slide_id) <==> r is Some,
            r matches Some(s) ==> s.widgets@ == self@.widgets(slide_id),
    {
        if 1 <= slide_id && slide_id <= self.scene.next_slide_id {
            let n: usize = self.scene.slides.len();
            assert(slide_id <= n);
            let i = (slide_id - 1) as usize;
            assert(self@.slides[i as int] == self.scene.slides@[i as int].widgets@);
            Some(&self.scene.slides[i])
        } else {
            None
        }
    }

    /// The shown slide, read through the registry so that it reflects every
    /// widget added since it was shown; `None` before any slide is shown.
    pub fn current_slide(&self) -> (r: Option<&Slide>)
        requires
            self.wf(),
        ensures
            self@.current is None <==> r is None,
            r matches Some(s) ==> s.widgets@ == self@.widgets(self@.current->0),
    {
        match self.scene.current_slide {
            Some(id) => self.slide(id),
            None => None,
        }
    }
}

} // verus!
