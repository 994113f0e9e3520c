//! Event views and event handlers: the views that react to mouse events, the styles
//! that follow the mouse, and the event handler that follows a stream of values.
use vstd::prelude::*;

use std::task::Waker;
use tokio::runtime::Handle;
use tokio::sync::mpsc::Receiver;
use tokio::task::JoinHandle;

use crate::flags::{CatchMouseButton, ChangeFlags, Modifier};
use crate::style::{Color, Style};
use crate::view::common::Styleable;

verus! {

/// The receiving end of a channel (`tokio::sync::mpsc::Receiver`).
#[verifier::external_type_specification]
#[verifier::external_body]
#[verifier::reject_recursive_types(T)]
pub struct ExReceiver<T>(Receiver<T>);

/// A view that hands the mouse events on its content to an event handler, and catches
/// (marks as handled) the presses of the buttons in `catch_event`.
pub struct OnMouse<V, EH> {
    pub view: V,
    pub catch_event: CatchMouseButton,
    pub event_handler: EH,
}

impl<V, EH> OnMouse<V, EH> {
    /// The same view, catching the presses of `buttons` (and of no other button).
    pub fn catch_event(self, buttons: CatchMouseButton) -> (r: Self)
        ensures
            r.catch_event == buttons,
            r.view == self.view,
            r.event_handler == self.event_handler,
    {
        let mut s = self;
        s.catch_event = buttons;
        s
    }
}

/// Sets the style that a widget paints with to `style`; a change needs a repaint.
pub fn update_style(current: &mut Style, style: Style) -> (r: ChangeFlags)
    ensures
        *final(current) == style,
        r.bits == (if *old(current) != style {
            0x8u8
        } else {
            0u8
        }),
{
    if *current != style {
        *current = style;
        ChangeFlags::paint()
    } else {
        ChangeFlags::empty()
    }
}

/// A view that paints its content with `style` on top while the mouse is over it.
pub struct StyleOnHover<V> {
    pub view: V,
    pub style: Style,
}

/// A view that paints its content with `style` on top while it is pressed.
pub struct StyleOnPressed<V> {
    pub view: V,
    pub style: Style,
}

impl<V: Styleable> Styleable for StyleOnHover<V> {
    type Output = StyleOnHover<V::Output>;

    /// The content restyled; the hover style stays.
    fn fg(self, color: Color) -> (r: StyleOnHover<V::Output>)
        ensures
            r.style == self.style,
    {
        StyleOnHover { view: self.view.fg(color), style: self.style }
    }

    /// The content restyled; the hover style stays.
    fn bg(self, color: Color) -> (r: StyleOnHover<V::Output>)
        ensures
            r.style == self.style,
    {
        StyleOnHover { view: self.view.bg(color), style: self.style }
    }

    /// The content restyled; the hover style stays.
    fn style(self, style: Style) -> (r: StyleOnHover<V::Output>)
        ensures
            r.style == self.style,
    {
        StyleOnHover { view: self.view.style(style), style: self.style }
    }

    /// The content restyled; the hover style stays.
    fn modifier(self, modifier: Modifier) -> (r: StyleOnHover<V::Output>)
        ensures
            r.style == self.style,
    {
        StyleOnHover { view: self.view.modifier(modifier), style: self.style }
    }

    /// The style of the content.
    fn current_style(&self) -> (r: Style)
        ensures
            call_ensures(V::current_style, (&self.view,), r),
    {
        self.view.current_style()
    }
}

impl<V: Styleable> Styleable for StyleOnPressed<V> {
    type Output = StyleOnPressed<V::Output>;

    /// The content restyled; the pressed style stays.
    fn fg(self, color: Color) -> (r: StyleOnPressed<V::Output>)
        ensures
            r.style == self.style,
    {
        StyleOnPressed { view: self.view.fg(color), style: self.style }
    }

    /// The content restyled; the pressed style stays.
    fn bg(self, color: Color) -> (r: StyleOnPressed<V::Output>)
        ensures
            r.style == self.style,
    {
        StyleOnPressed { view: self.view.bg(color), style: self.style }
    }

    /// The content restyled; the pressed style stays.
    fn style(self, style: Style) -> (r: StyleOnPressed<V::Output>)
        ensures
            r.style == self.style,
    {
        StyleOnPressed { view: self.view.style(style), style: self.style }
    }

    /// The content restyled; the pressed style stays.
    fn modifier(self, modifier: Modifier) -> (r: StyleOnPressed<V::Output>)
        ensures
            r.style == self.style,
    {
        StyleOnPressed { view: self.view.modifier(modifier), style: self.style }
    }

    /// The style of the content.
    fn current_style(&self) -> (r: Style)
        ensures
            call_ensures(V::current_style, (&self.view,), r),
    {
        self.view.current_style()
    }
}

/// What a stream gives to the update function of a stream event handler.
pub enum StreamMessage<E> {
    /// The first value of the stream.
    Begin(E),
    /// A later value.
    Update(E),
    /// The stream has ended.
    Finished,
}

/// An event handler that turns an event into a stream with `stream_fn` and hands what
/// the stream gives to `update_fn`.
pub struct StreamEventHandler<SF, UF> {
    pub stream_fn: SF,
    pub update_fn: UF,
}

/// The event handler that follows the stream that `stream_fn` makes of an event, and
/// calls `update_fn` with each of its values and with its end.
pub fn stream<SF, UF>(stream_fn: SF, update_fn: UF) -> (r: StreamEventHandler<SF, UF>)
    ensures
        r.stream_fn == stream_fn,
        r.update_fn == update_fn,
{
    StreamEventHandler { stream_fn, update_fn }
}

/// What receiving from the channel of a stream gave.
pub enum Received<E> {
    /// A value of the stream.
    Item(E),
    /// The marker that the stream has ended.
    End,
    /// Nothing: the channel is empty or closed.
    Nothing,
}

/// Receives from the channel without waiting (`tokio::sync::mpsc::Receiver::try_recv`):
/// a value, the end marker, or nothing. What is there depends on the task that sends,
/// so nothing is stated of it.
#[verifier::external_body]
fn receive<E>(chan: &mut Receiver<Option<E>>) -> (r: Received<E>) {
    match chan.try_recv() {
        Ok(Some(value)) => Received::Item(value),
        Ok(None) => Received::End,
        Err(_) => Received::Nothing,
    }
}

/// The state of a stream event handler: the channel that the stream's task fills, and
/// whether the next value is the first and whether the stream still runs.
#[verifier::reject_recursive_types(E)]
pub struct StreamEventHandlerState<E> {
    pub waker: Waker,
    pub runtime: Handle,
    pub chan: Option<Receiver<Option<E>>>,
    pub started: bool,
    pub is_streaming: bool,
    pub join_handle: Option<JoinHandle<()>>,
}

impl<E> StreamEventHandlerState<E> {
    /// The state before any stream: no channel, neither started nor streaming.
    pub fn new(waker: Waker, runtime: Handle) -> (r: Self)
        ensures
            r.waker == waker,
            r.runtime == runtime,
            r.chan is None,
            r.join_handle is None,
            !r.started,
            !r.is_streaming,
    {
        StreamEventHandlerState {
            waker,
            runtime,
            chan: None,
            join_handle: None,
            started: false,
            is_streaming: false,
        }
    }

    /// Takes over a stream that has just been spawned: its channel and its task. The
    /// next value is the first one, and the stream runs.
    pub fn start(&mut self, chan: Receiver<Option<E>>, join_handle: JoinHandle<()>)
        ensures
            final(self).chan == Some(chan),
            final(self).join_handle == Some(join_handle),
            final(self).started,
            final(self).is_streaming,
            final(self).waker == old(self).waker,
            final(self).runtime == old(self).runtime,
    {
        self.chan = Some(chan);
        self.started = true;
        self.is_streaming = true;
        self.join_handle = Some(join_handle);
    }

    /// Takes note of what the channel gave: the first value begins the stream, later
    /// ones update it, the end marker finishes it; with nothing received there is no
    /// message. The stream stops running at its end and when nothing was received.
    pub fn poll_step(&mut self, received: Received<E>) -> (r: Option<StreamMessage<E>>)
        ensures
            final(self).chan == old(self).chan,
            final(self).join_handle == old(self).join_handle,
            final(self).waker == old(self).waker,
            final(self).runtime == old(self).runtime,
            match received {
                Received::Item(v) => {
                    &&& final(self).is_streaming == old(self).is_streaming
                    &&& !final(self).started
                    &&& r == Some(
                        if old(self).started {
                            StreamMessage::Begin(v)
                        } else {
                            StreamMessage::Update(v)
                        },
                    )
                },
                Received::End => {
                    &&& !final(self).is_streaming
                    &&& final(self).started == old(self).started
                    &&& r == Some(StreamMessage::<E>::Finished)
                },
                Received::Nothing => {
                    &&& !final(self).is_streaming
                    &&& final(self).started == old(self).started
                    &&& r is None
                },
            },
    {
        match received {
            Received::Item(v) => {
                if self.started {
                    self.started = false;
                    Some(StreamMessage::Begin(v))
                } else {
                    Some(StreamMessage::Update(v))
                }
            },
            Received::End => {
                self.is_streaming = false;
                Some(StreamMessage::Finished)
            },
            Received::Nothing => {
                self.is_streaming = false;
                None
            },
        }
    }

    /// Receives from the stream's channel once and takes note of it (see
    /// [`Self::poll_step`]). Only called once a stream has been started.
    pub fn poll(&mut self) -> (r: Option<StreamMessage<E>>)
        requires
            old(self).chan is Some,
        ensures
            final(self).join_handle == old(self).join_handle,
            final(self).waker == old(self).waker,
            final(self).runtime == old(self).runtime,
            final(self).chan is Some,
            r is None ==> !final(self).is_streaming && final(self).started == old(
                self,
            ).started,
            (r matches Some(StreamMessage::Finished)) ==> !final(self).is_streaming,
            (r matches Some(StreamMessage::Begin(_))) ==> old(self).started
                && !final(self).started,
            (r matches Some(StreamMessage::Update(_))) ==> !old(self).started
                && !final(self).started,
    {
        let mut chan = self.chan.take().unwrap();
        let received = receive(&mut chan);
        self.chan = Some(chan);
        self.poll_step(received)
    }
}

} // verus!
