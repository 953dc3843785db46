//! The session of a viewer and its reaction to events.

use vstd::prelude::*;
use crate::event::{Event, Key, Reaction, Scroll, ViewChange, WheelDirection};
use crate::geometry::{Pixel, Size};
use crate::image::ImageBinding;
use crate::zoom::{lemma_zoom_range_bounds, zoom_range, zoom_range_spec, ZoomRange};

verus! {

/// A viewer: whether it is still running, and the image it shows.
#[derive(Clone, Copy, Debug, PartialEq, Eq)]
pub struct Viewer {
    /// The host shows frames for as long as this holds.
    pub running: bool,
    /// The image on show.
    pub image: ImageBinding,
}

impl Viewer {
    /// A running viewer that shows `image`.
    pub fn new(image: ImageBinding) -> (viewer: Viewer)
        ensures
            viewer == (Viewer { running: true, image }),
    {
        Viewer { running: true, image }
    }

    /// Tells whether the host is to go on showing frames.
    pub fn is_running(&self) -> (running: bool)
        ensures
            running == self.running,
    {
        self.running
    }

    /// The fitted zoom of the image on show in a window of `window`
    /// pixels, with its bounds.
    pub fn zoom_range(&self, window: Size) -> (range: ZoomRange)
        ensures
            range == zoom_range_spec(window, self.image.size()),
            range.initial.wf(),
            range.min.wf(),
            range.max.wf(),
    {
        zoom_range(window, self.image.size())
    }

    /// The viewer after `event`.  Escape stops it, a dropped file that
    /// holds an image replaces the image on show, and nothing else
    /// changes it.
    pub open spec fn next(self, event: Event) -> Viewer {
        match event {
            Event::KeyPressed { key: Key::Escape } => Viewer { running: false, image: self.image },
            Event::FileDropped { window, decoded: Some(image) } => Viewer {
                running: self.running,
                image,
            },
            _ => self,
        }
    }

    /// What the host is asked to do after `event`.
    pub open spec fn reaction(self, event: Event) -> Reaction {
        match event {
            Event::Resized { window } => Reaction::redraw_with(
                ViewChange::Rebound { range: zoom_range_spec(window, self.image.size()) },
            ),
            Event::KeyPressed { key } => Reaction::nothing(),
            Event::Scrolled { scroll: Scroll::Lines { direction: WheelDirection::Up } } =>
                Reaction::redraw_with(ViewChange::ZoomIn),
            Event::Scrolled { scroll: Scroll::Lines { direction: WheelDirection::Down } } =>
                Reaction::redraw_with(ViewChange::ZoomOut),
            Event::Scrolled { scroll: Scroll::Lines { direction: WheelDirection::Still } } =>
                Reaction::redraw_with(ViewChange::Keep),
            Event::Scrolled { scroll: Scroll::Pixels } => Reaction::nothing(),
            Event::MouseMoved { from, to, left_down, right_down } => if left_down || right_down {
                Reaction::redraw_with(ViewChange::Pan { from, to })
            } else {
                Reaction::redraw_with(ViewChange::Keep)
            },
            Event::FileDropped { window, decoded: Some(image) } => Reaction {
                change: ViewChange::Refit { range: zoom_range_spec(window, image.size()) },
                rebuild_texture: true,
                report_failure: false,
                redraw: true,
            },
            Event::FileDropped { window, decoded: None } => Reaction {
                change: ViewChange::Keep,
                rebuild_texture: false,
                report_failure: true,
                redraw: false,
            },
        }
    }

    /// Takes `event` in: updates the viewer and says what the host is to
    /// do.
    pub fn handle(&mut self, event: Event) -> (reaction: Reaction)
        ensures
            *final(self) == old(self).next(event),
            reaction == old(self).reaction(event),
    {
        match event {
            Event::Resized { window } => {
                let range: ZoomRange = zoom_range(window, self.image.size());
                Reaction {
                    change: ViewChange::Rebound { range },
                    rebuild_texture: false,
                    report_failure: false,
                    redraw: true,
                }
            },
            Event::KeyPressed { key } => {
                match key {
                    Key::Escape => {
                        self.running = false;
                    },
                    Key::Other => {},
                }
                Reaction {
                    change: ViewChange::Keep,
                    rebuild_texture: false,
                    report_failure: false,
                    redraw: false,
                }
            },
            Event::Scrolled { scroll } => {
                match scroll {
                    Scroll::Lines { direction } => {
                        let change: ViewChange = match direction {
                            WheelDirection::Up => ViewChange::ZoomIn,
                            WheelDirection::Down => ViewChange::ZoomOut,
                            WheelDirection::Still => ViewChange::Keep,
                        };
                        Reaction {
                            change,
                            rebuild_texture: false,
                            report_failure: false,
                            redraw: true,
                        }
                    },
                    Scroll::Pixels => Reaction {
                        change: ViewChange::Keep,
                        rebuild_texture: false,
                        report_failure: false,
                        redraw: false,
                    },
                }
            },
            Event::MouseMoved { from, to, left_down, right_down } => {
                let change: ViewChange = if left_down || right_down {
                    ViewChange::Pan { from, to }
                } else {
                    ViewChange::Keep
                };
                Reaction { change, rebuild_texture: false, report_failure: false, redraw: true }
            },
            Event::FileDropped { window, decoded } => {
                match decoded {
                    Some(image) => {
                        let range: ZoomRange = zoom_range(window, image.size());
                        self.image = image;
                        Reaction {
                            change: ViewChange::Refit { range },
                            rebuild_texture: true,
                            report_failure: false,
                            redraw: true,
                        }
                    },
                    None => Reaction {
                        change: ViewChange::Keep,
                        rebuild_texture: false,
                        report_failure: true,
                        redraw: false,
                    },
                }
            },
        }
    }

    /// The viewer after a sequence of events, taken in order.
    pub open spec fn after(self, events: Seq<Event>) -> Viewer
        decreases events.len(),
    {
        if events.len() == 0 {
            self
        } else {
            self.after(events.drop_last()).next(events.last())
        }
    }

    /// A viewer is running after a sequence of events exactly if it was
    /// running before and escape was not pressed in between.  So a viewer
    /// that has stopped never starts again.
    pub proof fn lemma_running_until_escape(self, events: Seq<Event>)
        ensures
            self.after(events).running <==> self.running && forall|i: int|
                0 <= i < events.len() ==> events[i] != (Event::KeyPressed { key: Key::Escape }),
        decreases events.len(),
    {
        if events.len() > 0 {
            let before = events.drop_last();
            self.lemma_running_until_escape(before);
            assert(forall|i: int| 0 <= i < before.len() ==> before[i] == events[i]);
            if self.after(events).running {
                assert forall|i: int| 0 <= i < events.len() implies events[i] != (
                Event::KeyPressed { key: Key::Escape }) by {
                    if i < before.len() {
                        assert(before[i] == events[i]);
                    }
                }
            }
        }
    }

    /// A dropped file that holds no image that can be shown leaves the
    /// viewer as it was and asks for nothing but a report of the failure:
    /// no change to the view, no new texture, no frame.
    pub proof fn lemma_failed_drop_changes_nothing(self, window: Size)
        ensures
            self.next(Event::FileDropped { window, decoded: None }) == self,
            self.reaction(Event::FileDropped { window, decoded: None }) == (Reaction {
                change: ViewChange::Keep,
                rebuild_texture: false,
                report_failure: true,
                redraw: false,
            }),
    {
    }

    /// Only a dropped file that holds an image changes the image on show,
    /// and only then is a new texture asked for.
    pub proof fn lemma_image_changes_on_drop_only(self, event: Event)
        ensures
            self.next(event).image != self.image ==> event is FileDropped,
            self.reaction(event).rebuild_texture <==> (event matches Event::FileDropped {
                decoded: Some(_),
                ..
            }),
            event matches Event::FileDropped { decoded: Some(image), .. } ==> self.next(
                event,
            ).image == image,
    {
    }

    /// Dragging the cursor from one pixel to another and back, with a
    /// button held, leaves the viewer as it was and asks for two pans of
    /// which the second is the first with its ends swapped.
    pub proof fn lemma_drag_there_and_back(
        self,
        start: Pixel,
        turn: Pixel,
        left_down: bool,
        right_down: bool,
    )
        requires
            left_down || right_down,
        ensures
            ({
                let there = Event::MouseMoved { from: start, to: turn, left_down, right_down };
                let back = Event::MouseMoved { from: turn, to: start, left_down, right_down };
                &&& self.next(there).next(back) == self
                &&& self.reaction(there) == Reaction::redraw_with(
                    ViewChange::Pan { from: start, to: turn },
                )
                &&& self.next(there).reaction(back) == Reaction::redraw_with(
                    ViewChange::Pan { from: turn, to: start },
                )
            }),
    {
    }

    /// Whatever the event, the zoom range that a reaction carries is the
    /// one of the image then on show in the window that the event names,
    /// and it is well formed as long as the images involved are.
    pub proof fn lemma_reaction_range(self, event: Event)
        requires
            self.image.wf(),
            event matches Event::FileDropped { decoded: Some(image), .. } ==> image.wf(),
        ensures
            self.next(event).image.wf(),
            match self.reaction(event).change {
                ViewChange::Rebound { range } => event matches Event::Resized { window } && range
                    == zoom_range_spec(window, self.image.size()) && range.min.le(range.initial)
                    && range.initial.le(range.max),
                ViewChange::Refit { range } => event matches Event::FileDropped { window, .. }
                    && range == zoom_range_spec(window, self.next(event).image.size())
                    && range.min.le(range.initial) && range.initial.le(range.max),
                _ => true,
            },
    {
        match event {
            Event::Resized { window } => {
                self.image.lemma_sides_positive();
                lemma_zoom_range_bounds(window, self.image.size());
            },
            Event::FileDropped { window, decoded: Some(image) } => {
                image.lemma_sides_positive();
                lemma_zoom_range_bounds(window, image.size());
            },
            _ => {},
        }
    }
}

} // verus!
