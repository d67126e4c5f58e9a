//! What an embedding view controller may ask of the browser.
//!
//! There is at most one browser, kept in an [`AppSlot`]. `A` is the shell's handle to it.
//! Each entry point says which call to make on which handle, or that there is none to
//! make. Pointers arrive as addresses and as the bytes they point at; `T` is whatever the
//! platform measures coordinates in.

use vstd::prelude::*;

use euclid::{Rect, Size2D, UnknownUnit};

verus! {

/// An area of the screen, in device pixels.
#[derive(Clone, Copy, Debug, PartialEq, Eq, Structural)]
pub struct ViewportRect {
    pub x: i32,
    pub y: i32,
    pub width: i32,
    pub height: i32,
}

impl ViewportRect {
    /// Whether there is anything to draw on.
    pub open spec fn wf(self) -> bool {
        self.width >= 1 && self.height >= 1
    }
}

/// `euclid::Rect::new`, at the default point and of the size that `euclid::Size2D::new`
/// gives. Claimed of them: they keep what they are given, and the default point is the
/// origin.
#[verifier::external_body]
fn rect_at_origin(width: i32, height: i32) -> (r: ViewportRect)
    ensures
        r == (ViewportRect { x: 0, y: 0, width, height }),
{
    let rect: Rect<i32, UnknownUnit> = Rect::new(Default::default(), Size2D::new(width, height));
    ViewportRect {
        x: rect.origin.x,
        y: rect.origin.y,
        width: rect.size.width,
        height: rect.size.height,
    }
}

/// `value`, or one if it is less.
pub open spec fn at_least_one(value: i32) -> i32 {
    if value < 1 {
        1
    } else {
        value
    }
}

/// The viewport of a view of the given size; never empty.
pub fn viewport_rect(width: i32, height: i32) -> (r: ViewportRect)
    ensures
        r == (ViewportRect {
            x: 0,
            y: 0,
            width: at_least_one(width),
            height: at_least_one(height),
        }),
        r.wf(),
{
    rect_at_origin(width.max(1), height.max(1))
}

/// `std::str::from_utf8`. Claimed of it: it gives text exactly when the bytes are valid
/// UTF-8, and the text is what they encode.
#[verifier::external_body]
fn utf8_text(bytes: &[u8]) -> (r: Option<&str>)
    ensures
        match r {
            Some(text) => vstd::utf8::valid_utf8(bytes@) && text@ == vstd::utf8::decode_utf8(
                bytes@,
            ),
            None => !vstd::utf8::valid_utf8(bytes@),
        },
{
    std::str::from_utf8(bytes).ok()
}

/// The text of a C string; none for a null pointer or for bytes that are not UTF-8.
pub open spec fn c_text(value: Option<Seq<u8>>) -> Option<Seq<char>> {
    match value {
        Some(bytes) if vstd::utf8::valid_utf8(bytes) => Some(vstd::utf8::decode_utf8(bytes)),
        _ => None,
    }
}

/// The bytes that an optional vector holds, if any.
pub open spec fn opt_bytes(value: Option<Vec<u8>>) -> Option<Seq<u8>> {
    match value {
        Some(bytes) => Some(bytes@),
        None => None,
    }
}

/// The text of a C string, given the bytes before its terminator, or nothing for a null
/// pointer.
pub fn c_string(value: Option<Vec<u8>>) -> (r: Option<String>)
    ensures
        crate::text::opt_text(r) == c_text(opt_bytes(value)),
        match value {
            Some(bytes) => if vstd::utf8::valid_utf8(bytes@) {
                r matches Some(text) && text@ == vstd::utf8::decode_utf8(bytes@)
            } else {
                r is None
            },
            None => r is None,
        },
{
    let bytes = match value {
        Some(bytes) => bytes,
        None => {
            return None;
        },
    };
    match utf8_text(bytes.as_slice()) {
        Some(text) => Some(text.to_owned()),
        None => None,
    }
}

/// Bytes that are valid UTF-8, however many, are the text that they encode; other bytes are
/// no text, and neither is a null pointer.
pub proof fn valid_bytes_are_their_text(value: Option<Vec<u8>>)
    ensures
        value matches Some(bytes) ==> vstd::utf8::valid_utf8(bytes@) ==> c_text(opt_bytes(value))
            == Some(vstd::utf8::decode_utf8(bytes@)),
        value matches Some(bytes) ==> !vstd::utf8::valid_utf8(bytes@) ==> c_text(opt_bytes(value))
            is None,
        value is None ==> c_text(opt_bytes(value)) is None,
{
}

/// Any text that a host encodes arrives as it was.
pub proof fn encoded_text_arrives_as_it_was(text: Seq<char>)
    ensures
        c_text(Some(vstd::utf8::encode_utf8(text))) == Some(text),
{
    vstd::utf8::encode_utf8_valid_utf8(text);
    vstd::utf8::encode_utf8_decode_utf8(text);
}

/// A view to draw in, by its address, which is never null.
#[derive(Clone, Copy, Debug, PartialEq, Eq, Structural)]
pub struct WindowHandle {
    pub ui_view: usize,
}

/// The handle of the view at an address; none for a null pointer.
pub fn window_handle(view: usize) -> (r: Option<WindowHandle>)
    ensures
        r == (if view == 0 {
            None
        } else {
            Some(WindowHandle { ui_view: view })
        }),
{
    if view == 0 {
        None
    } else {
        Some(WindowHandle { ui_view: view })
    }
}

/// How the browser tells its host that there is work for the event loop. `C` is the
/// host's function.
#[derive(Clone, Copy)]
pub struct WakeupCallback<C> {
    pub callback: Option<C>,
    pub context: usize,
}

impl<C: Copy> WakeupCallback<C> {
    /// The function to call, and the context to call it with; none if the host gave none.
    pub fn wake(&self) -> (r: Option<(C, usize)>)
        ensures
            r == (match self.callback {
                Some(callback) => Some((callback, self.context)),
                None => None,
            }),
    {
        match self.callback {
            Some(callback) => Some((callback, self.context)),
            None => None,
        }
    }
}

/// What the browser tells its host. Most of it is of no interest here.
pub struct HostCallbacks;

impl HostCallbacks {
    /// The line to log for an alert, which is not shown.
    pub fn show_alert(&self, message: &str) -> (r: String)
        ensures
            r@ == "Ignoring alert on iOS: "@ + message@,
    {
        crate::text::join("Ignoring alert on iOS: ", message)
    }

    /// The lines to log for a panic: the reason, then the backtrace if there is one.
    pub fn on_panic(&self, reason: &str, backtrace: Option<String>) -> (r: Vec<String>)
        ensures
            crate::text::texts(r@) == seq!["Servo panic: "@ + reason@] + (match backtrace {
                Some(backtrace) => seq![backtrace@],
                None => Seq::empty(),
            }),
    {
        let mut lines: Vec<String> = Vec::new();
        lines.push(crate::text::join("Servo panic: ", reason));
        match backtrace {
            Some(text) => {
                lines.push(text);
            },
            None => {},
        }
        assert(crate::text::texts(lines@) =~= seq!["Servo panic: "@ + reason@] + (match backtrace {
            Some(backtrace) => seq![backtrace@],
            None => Seq::empty(),
        }));
        lines
    }
}

/// Something to do with a browser that was just made.
#[derive(Clone, Copy, Debug, PartialEq, Eq, Structural)]
pub enum StartCall {
    /// Give it a window in a view.
    AddWindow { window: WindowHandle, viewport: ViewportRect },
    /// Let it do its outstanding work.
    SpinEventLoop,
    /// Put its handle into the slot with [`AppSlot::install`].
    Install,
}

/// What starts a browser, in order: its window is added, its event loop is spun once, and
/// then it is stored.
pub open spec fn start_calls(window: WindowHandle, viewport: ViewportRect) -> Seq<StartCall> {
    seq![
        StartCall::AddWindow { window, viewport },
        StartCall::SpinEventLoop,
        StartCall::Install,
    ]
}

/// What a slot holds after `calls` were made for `app`.
pub open spec fn slot_after<A>(slot: Option<A>, app: A, calls: Seq<StartCall>) -> Option<A>
    decreases calls.len(),
{
    if calls.len() == 0 {
        slot
    } else if calls.last() == StartCall::Install {
        Some(app)
    } else {
        slot_after(slot, app, calls.drop_last())
    }
}

/// A browser that was started is the one in the slot, in place of the one before if there
/// was one; until its window was added and its event loop spun, the slot stays as it was.
pub proof fn started_browser_is_stored_last<A>(
    slot: Option<A>,
    app: A,
    window: WindowHandle,
    viewport: ViewportRect,
)
    ensures
        slot_after(slot, app, start_calls(window, viewport)) == Some(app),
        slot_after(slot, app, start_calls(window, viewport).take(2)) == slot,
{
    let two = start_calls(window, viewport).take(2);
    assert(two.drop_last().drop_last() =~= Seq::<StartCall>::empty());
    reveal_with_fuel(slot_after, 3);
}

/// A browser is started by three calls: the first adds its window, in the view and of the
/// size that were given, the second spins its event loop, the third stores it.
pub proof fn browser_starts_by_three_calls(window: WindowHandle, viewport: ViewportRect)
    ensures
        start_calls(window, viewport).len() == 3,
        start_calls(window, viewport)[0] == (StartCall::AddWindow { window, viewport }),
        start_calls(window, viewport)[1] == StartCall::SpinEventLoop,
        start_calls(window, viewport)[2] == StartCall::Install,
{
}

/// What starts a browser in a view, in order.
pub fn start_browser(window: WindowHandle, viewport: ViewportRect) -> (r: Vec<StartCall>)
    ensures
        r@ == start_calls(window, viewport),
{
    let mut calls: Vec<StartCall> = Vec::new();
    calls.push(StartCall::AddWindow { window, viewport });
    calls.push(StartCall::SpinEventLoop);
    calls.push(StartCall::Install);
    assert(calls@ =~= start_calls(window, viewport));
    calls
}

/// How a browser is to be set up.
pub struct InitPlan<C> {
    pub initial_url: Option<String>,
    pub homepage: String,
    /// Executable mappings crash without an entitlement that this app does not have, so
    /// scripts run in the interpreter only.
    pub js_disable_jit: bool,
    pub waker: WakeupCallback<C>,
    /// What to do once it was made, in order.
    pub calls: Vec<StartCall>,
}

/// Set up a browser in the view at address `view`; none for a null pointer.
///
/// One browser is to be made as the plan says, and then started by the plan's calls.
pub fn servoshell_ios_init<C>(
    view: usize,
    width: i32,
    height: i32,
    url: Option<Vec<u8>>,
    wake_callback: Option<C>,
    wake_context: usize,
) -> (r: Option<InitPlan<C>>)
    ensures
        match r {
            Some(plan) => {
                &&& view != 0
                &&& plan.calls@ == start_calls(
                    WindowHandle { ui_view: view },
                    ViewportRect {
                        x: 0,
                        y: 0,
                        width: at_least_one(width),
                        height: at_least_one(height),
                    },
                )
                &&& crate::text::opt_text(plan.initial_url) == c_text(opt_bytes(url))
                &&& plan.homepage@ == "about:blank"@
                &&& plan.js_disable_jit
                &&& plan.waker == (WakeupCallback {
                    callback: wake_callback,
                    context: wake_context,
                })
            },
            None => view == 0,
        },
        r matches Some(plan) ==> (url matches Some(bytes) ==> if vstd::utf8::valid_utf8(bytes@) {
            plan.initial_url matches Some(text) && text@ == vstd::utf8::decode_utf8(bytes@)
        } else {
            plan.initial_url is None
        }),
        r matches Some(plan) ==> (url is None ==> plan.initial_url is None),
{
    let window = match window_handle(view) {
        Some(window) => window,
        None => {
            return None;
        },
    };
    Some(
        InitPlan {
            initial_url: c_string(url),
            homepage: "about:blank".to_owned(),
            js_disable_jit: true,
            waker: WakeupCallback { callback: wake_callback, context: wake_context },
            calls: start_browser(window, viewport_rect(width, height)),
        },
    )
}

/// The one browser there may be.
pub struct AppSlot<A> {
    app: Option<A>,
}

impl<A> View for AppSlot<A> {
    type V = Option<A>;

    closed spec fn view(&self) -> Option<A> {
        self.app
    }
}

impl<A> AppSlot<A> {
    /// A slot without a browser.
    pub fn new() -> (r: AppSlot<A>)
        ensures
            r@ is None,
    {
        AppSlot { app: None }
    }

    /// Keep a browser, in place of the one before if there was one.
    pub fn install(&mut self, app: A)
        ensures
            final(self)@ == Some(app),
    {
        self.app = Some(app);
    }

    /// The browser, if there is one, and a call to make on it.
    fn forward<K>(&self, call: K) -> (r: Option<(&A, K)>)
        ensures
            match r {
                Some((app, made)) => self@ == Some(*app) && made == call,
                None => self@ is None,
            },
    {
        match &self.app {
            Some(app) => Some((app, call)),
            None => None,
        }
    }
}

/// A call to make on the browser.
pub enum ShellCall {
    SpinEventLoop,
    NotifyVsync,
    Resize(ViewportRect),
    LoadUri(String),
    ScheduleExit,
}

/// What a finger does.
#[derive(Clone, Copy, Debug, PartialEq, Eq, Structural)]
pub enum TouchPhase {
    Down,
    Move,
    Up,
    Cancel,
}

/// A touch to report to the browser.
pub struct TouchCall<T> {
    pub phase: TouchPhase,
    pub x: T,
    pub y: T,
    pub pointer_id: i32,
}

/// Whether `r` makes `call` on the browser in `slot`, or nothing if there is none.
pub open spec fn makes<A, K>(slot: Option<A>, r: Option<(&A, K)>, call: K) -> bool {
    match r {
        Some((app, made)) => slot == Some(*app) && made == call,
        None => slot is None,
    }
}

/// Let the browser do its outstanding work.
pub fn servoshell_ios_spin_event_loop<A>(slot: &AppSlot<A>) -> (r: Option<(&A, ShellCall)>)
    ensures
        makes(slot@, r, ShellCall::SpinEventLoop),
{
    slot.forward(ShellCall::SpinEventLoop)
}

/// Tell the browser that the screen is about to refresh.
///
/// Draining the event queue alone makes no frame eligible to paint.
pub fn servoshell_ios_notify_vsync<A>(slot: &AppSlot<A>) -> (r: Option<(&A, ShellCall)>)
    ensures
        makes(slot@, r, ShellCall::NotifyVsync),
{
    slot.forward(ShellCall::NotifyVsync)
}

/// Tell the browser that its view has another size.
pub fn servoshell_ios_resize<A>(slot: &AppSlot<A>, width: i32, height: i32) -> (r: Option<
    (&A, ShellCall),
>)
    ensures
        makes(
            slot@,
            r,
            ShellCall::Resize(
                ViewportRect {
                    x: 0,
                    y: 0,
                    width: at_least_one(width),
                    height: at_least_one(height),
                },
            ),
        ),
{
    slot.forward(ShellCall::Resize(viewport_rect(width, height)))
}

/// Have the browser load a page; nothing for an address that is null or not text.
pub fn servoshell_ios_load_url<A>(slot: &AppSlot<A>, url: Option<Vec<u8>>) -> (r: Option<
    (&A, ShellCall),
>)
    ensures
        match r {
            Some((app, call)) => {
                &&& slot@ == Some(*app)
                &&& call matches ShellCall::LoadUri(text)
                &&& c_text(opt_bytes(url)) == Some(text@)
            },
            None => slot@ is None || c_text(opt_bytes(url)) is None,
        },
        url matches Some(bytes) ==> vstd::utf8::valid_utf8(bytes@) && slot@ is Some ==> ({
            &&& r matches Some((app, ShellCall::LoadUri(text)))
            &&& Some(*app) == slot@
            &&& text@ == vstd::utf8::decode_utf8(bytes@)
        }),
        url matches Some(bytes) ==> !vstd::utf8::valid_utf8(bytes@) ==> r is None,
        url is None ==> r is None,
{
    let url = match c_string(url) {
        Some(url) => url,
        None => {
            return None;
        },
    };
    slot.forward(ShellCall::LoadUri(url))
}

/// A finger touched the screen.
pub fn servoshell_ios_touch_down<A, T>(slot: &AppSlot<A>, x: T, y: T, pointer_id: i32) -> (r:
    Option<(&A, TouchCall<T>)>)
    ensures
        makes(slot@, r, (TouchCall { phase: TouchPhase::Down, x, y, pointer_id })),
{
    slot.forward(TouchCall { phase: TouchPhase::Down, x, y, pointer_id })
}

/// A finger moved over the screen.
pub fn servoshell_ios_touch_move<A, T>(slot: &AppSlot<A>, x: T, y: T, pointer_id: i32) -> (r:
    Option<(&A, TouchCall<T>)>)
    ensures
        makes(slot@, r, (TouchCall { phase: TouchPhase::Move, x, y, pointer_id })),
{
    slot.forward(TouchCall { phase: TouchPhase::Move, x, y, pointer_id })
}

/// A finger left the screen.
pub fn servoshell_ios_touch_up<A, T>(slot: &AppSlot<A>, x: T, y: T, pointer_id: i32) -> (r: Option<
    (&A, TouchCall<T>),
>)
    ensures
        makes(slot@, r, (TouchCall { phase: TouchPhase::Up, x, y, pointer_id })),
{
    slot.forward(TouchCall { phase: TouchPhase::Up, x, y, pointer_id })
}

/// A touch was taken over by the system.
pub fn servoshell_ios_touch_cancel<A, T>(slot: &AppSlot<A>, x: T, y: T, pointer_id: i32) -> (r:
    Option<(&A, TouchCall<T>)>)
    ensures
        makes(slot@, r, (TouchCall { phase: TouchPhase::Cancel, x, y, pointer_id })),
{
    slot.forward(TouchCall { phase: TouchPhase::Cancel, x, y, pointer_id })
}

/// The calls that end a browser: it is told to exit, then given its event loop to do so.
pub open spec fn shutdown_calls() -> Seq<ShellCall> {
    seq![ShellCall::ScheduleExit, ShellCall::SpinEventLoop]
}

/// End the browser: it leaves the slot for good, with the calls to make on it.
pub fn servoshell_ios_shutdown<A>(slot: &mut AppSlot<A>) -> (r: Option<(A, Vec<ShellCall>)>)
    ensures
        final(slot)@ is None,
        match r {
            Some((app, calls)) => old(slot)@ == Some(app) && calls@ == shutdown_calls(),
            None => old(slot)@ is None,
        },
{
    match slot.app.take() {
        Some(app) => {
            let mut calls: Vec<ShellCall> = Vec::new();
            calls.push(ShellCall::ScheduleExit);
            calls.push(ShellCall::SpinEventLoop);
            assert(calls@ =~= shutdown_calls());
            Some((app, calls))
        },
        None => None,
    }
}

/// A browser is ended by two calls: it is told to exit first, and spun after that.
pub proof fn browser_ends_by_two_calls()
    ensures
        shutdown_calls().len() == 2,
        shutdown_calls()[0] == ShellCall::ScheduleExit,
        shutdown_calls()[1] == ShellCall::SpinEventLoop,
{
}

/// A call is made on the browser in the slot and on no other, and it is the call that was
/// asked for.
pub proof fn call_is_made_on_the_browser<A, K>(slot: Option<A>, r: Option<(&A, K)>, call: K)
    ensures
        slot matches Some(browser) ==> (makes(slot, r, call) <==> (r matches Some((app, made))
            && *app == browser && made == call)),
        slot is None ==> (makes(slot, r, call) <==> r is None),
{
}

/// Once the slot is empty, no entry point makes a call.
pub proof fn empty_slot_makes_no_call<A, K>(slot: Option<A>, r: Option<(&A, K)>, call: K)
    requires
        slot is None,
        makes(slot, r, call),
    ensures
        r is None,
{
}

/// A viewport of a view that has at least one pixel each way is the view itself; one that
/// has none is one pixel wide or high, so that the viewport is never empty; and taking the viewport of a viewport changes nothing.
pub proof fn viewport_is_never_empty(width: i32, height: i32)
    ensures
        at_least_one(width) >= 1,
        at_least_one(height) >= 1,
        width >= 1 ==> at_least_one(width) == width,
        height >= 1 ==> at_least_one(height) == height,
        width < 1 ==> at_least_one(width) == 1,
        height < 1 ==> at_least_one(height) == 1,
        at_least_one(at_least_one(width)) == at_least_one(width),
        at_least_one(at_least_one(height)) == at_least_one(height),
{
}

} // verus!
