//! The application world and its per-tick behaviour.
//!
//! The world holds camera entities, text entities (each a character
//! sequence), and the resize events buffered since the last tick. Two
//! schedules act on it: a startup pass that runs once and spawns one camera
//! and one empty text label, and an update pass that runs every tick and
//! rewrites the label from the last buffered resize event, if any.
//!
//! The abstract state is [`AppView`]; the pure transitions [`send_view`] and
//! [`tick_view`] say exactly what buffering an event and running one tick do.
//! Every method of [`App`] is specified against them.

use vstd::prelude::*;

use crate::text_format::dims_text;
use crate::text_format::format_dims;

verus! {

/// A window-resize notification. Dimensions are in tenths of a pixel, so
/// that one decimal place of the displayed size is exact.
#[derive(Clone, Copy, PartialEq, Eq, Structural)]
pub struct ResizeEvent {
    pub width_tenths: u32,
    pub height_tenths: u32,
}

/// Abstract state of the application world.
#[verifier::ext_equal]
pub ghost struct AppView {
    /// Whether the startup and update schedules are registered.
    pub systems_added: bool,
    /// Whether the startup schedule has already run.
    pub started: bool,
    /// How many camera entities the world holds.
    pub cameras: nat,
    /// The contents of the text entities the world holds.
    pub texts: Seq<Seq<char>>,
    /// Resize events buffered since the last tick, oldest first.
    pub pending: Seq<ResizeEvent>,
}

/// The world right after construction, before any tick.
pub open spec fn fresh_view(systems_added: bool) -> AppView {
    AppView {
        systems_added,
        started: false,
        cameras: 0,
        texts: Seq::empty(),
        pending: Seq::empty(),
    }
}

/// Well-formedness: the startup pass runs only out of a registered
/// schedule, spawns exactly one camera and one text entity, and nothing
/// exists before it has run.
pub open spec fn wf_view(v: AppView) -> bool {
    &&& v.started ==> v.systems_added
    &&& v.started ==> v.cameras == 1 && v.texts.len() == 1
    &&& !v.started ==> v.cameras == 0 && v.texts.len() == 0
}

/// Buffering one resize event for the next tick.
pub open spec fn send_view(v: AppView, e: ResizeEvent) -> AppView {
    AppView { pending: v.pending.push(e), ..v }
}

/// The startup pass: on its first run it spawns one camera and one text
/// entity with empty content; afterwards it does nothing.
pub open spec fn startup_view(v: AppView) -> AppView {
    if v.started {
        v
    } else {
        AppView {
            started: true,
            cameras: v.cameras + 1,
            texts: v.texts.push(Seq::empty()),
            ..v
        }
    }
}

/// The resize response: consume all buffered events; the last one, if any,
/// determines the new content of the text label.
pub open spec fn resize_view(v: AppView) -> AppView {
    if v.pending.len() == 0 {
        v
    } else {
        let e = v.pending.last();
        AppView {
            texts: v.texts.update(0, dims_text(e.width_tenths as nat, e.height_tenths as nat)),
            pending: Seq::empty(),
            ..v
        }
    }
}

/// One scheduling tick: with no schedules registered nothing happens;
/// otherwise the startup pass runs (once), then the resize response.
pub open spec fn tick_view(v: AppView) -> AppView {
    if !v.systems_added {
        v
    } else {
        resize_view(startup_view(v))
    }
}

/// The application: a world of entities plus its registered schedules.
pub struct App {
    systems_added: bool,
    started: bool,
    cameras: u32,
    texts: Vec<String>,
    pending: Vec<ResizeEvent>,
}

impl View for App {
    type V = AppView;

    closed spec fn view(&self) -> AppView {
        AppView {
            systems_added: self.systems_added,
            started: self.started,
            cameras: self.cameras as nat,
            texts: Seq::new(self.texts@.len(), |i: int| self.texts@[i]@),
            pending: self.pending@,
        }
    }
}

impl App {
    /// Well-formedness of the concrete world.
    pub open spec fn wf(&self) -> bool {
        wf_view(self@)
    }

    /// A bare application: empty world, no schedules registered.
    pub fn new() -> (app: App)
        ensures
            app@ == fresh_view(false),
            app.wf(),
    {
        let app = App {
            systems_added: false,
            started: false,
            cameras: 0,
            texts: Vec::new(),
            pending: Vec::new(),
        };
        proof {
            assert(app@ =~~= fresh_view(false));
        }
        app
    }

    /// Buffer a resize event; it takes effect at the next tick.
    pub fn send_resize(&mut self, width_tenths: u32, height_tenths: u32)
        ensures
            final(self)@ == send_view(
                old(self)@,
                (ResizeEvent { width_tenths, height_tenths }),
            ),
    {
        self.pending.push(ResizeEvent { width_tenths, height_tenths });
        proof {
            assert(self@ =~~= send_view(
                old(self)@,
                (ResizeEvent { width_tenths, height_tenths }),
            ));
        }
    }

    /// One scheduling tick.
    pub fn update(&mut self)
        requires
            old(self).wf(),
        ensures
            final(self).wf(),
            final(self)@ == tick_view(old(self)@),
    {
        if !self.systems_added {
            return;
        }
        if !self.started {
            self.cameras = self.cameras + 1;
            self.texts.push(String::new());
            self.started = true;
        }
        proof {
            assert(self@ =~~= startup_view(old(self)@));
        }
        let n = self.pending.len();
        if n > 0 {
            let e = self.pending[n - 1];
            let s = format_dims(e.width_tenths, e.height_tenths);
            self.texts.clear();
            self.texts.push(s);
        }
        self.pending.clear();
        proof {
            assert(self@ =~~= tick_view(old(self)@));
        }
    }

    /// How many text entities the world holds.
    pub fn count_n_texts(&self) -> (n: usize)
        ensures
            n == self@.texts.len(),
    {
        self.texts.len()
    }

    /// The content of the single text entity. The world must hold exactly
    /// one; with none or several the lookup contract is violated.
    pub fn get_text_text(&self) -> (s: String)
        requires
            self@.texts.len() == 1,
        ensures
            s@ == self@.texts[0],
    {
        self.texts[0].clone()
    }
}

/// The application as the program runs it: the startup and update
/// schedules registered on a still-empty world.
pub fn create_app() -> (app: App)
    ensures
        app@ == fresh_view(true),
        app.wf(),
{
    let app = App {
        systems_added: true,
        started: false,
        cameras: 0,
        texts: Vec::new(),
        pending: Vec::new(),
    };
    proof {
        assert(app@ =~~= fresh_view(true));
    }
    app
}

} // verus!
