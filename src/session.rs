use vstd::prelude::*;

use std::collections::HashMap;

use crate::dispmanx::{
    DisplayHandle,
    ElementHandle,
    ResourceHandle,
    UpdateHandle,
    DISPMANX_NO_HANDLE,
    ELEMENT_CHANGE_LAYER,
};
use crate::image::ImageType;

verus! {

broadcast use vstd::std_specs::hash::group_hash_axioms;

/// What a display was opened on.
#[derive(Clone, Copy, Debug, PartialEq, Eq, Structural)]
pub enum DisplayOrigin {
    /// A physical device, by its display id.
    Device(u32),
    /// A resource that receives the composited frames.
    Offscreen(ResourceHandle),
}

/// What a resource was created with.
#[derive(Clone, Copy, Debug, PartialEq, Eq, Structural)]
pub struct ResourceInfo {
    pub image_type: ImageType,
    pub width: u32,
    pub height: u32,
}

/// The state of an update: it takes element operations until it is
/// submitted, and none after.
#[derive(Clone, Copy, Debug, PartialEq, Eq, Structural)]
pub enum UpdateState {
    Open,
    Submitted,
}

/// What is known of a live element.
#[derive(Clone, Copy, Debug, PartialEq, Eq, Structural)]
pub struct ElementInfo {
    pub display: DisplayHandle,
    pub layer: i32,
    pub source: ResourceHandle,
}

/// A request that may not be forwarded to the firmware.
#[derive(Clone, Copy, Debug, PartialEq, Eq, Structural)]
pub enum Misuse {
    /// The host has not been initialised, or has been released.
    NotInitialized,
    /// The host is initialised already.
    AlreadyInitialized,
    UnknownDisplay,
    UnknownResource,
    UnknownElement,
    UnknownUpdate,
    /// The update has been submitted and takes no more operations.
    UpdateSubmitted,
}

/// The abstract state of a session: whether the host is initialised, and the
/// handles that are live, with what is known of each.
pub struct SessionModel {
    pub initialized: bool,
    pub displays: Map<DisplayHandle, DisplayOrigin>,
    pub resources: Map<ResourceHandle, ResourceInfo>,
    pub updates: Map<UpdateHandle, UpdateState>,
    pub elements: Map<ElementHandle, ElementInfo>,
}

/// The first failure of two checks made in turn.
pub open spec fn then_check(a: Result<(), Misuse>, b: Result<(), Misuse>) -> Result<(), Misuse> {
    if a is Err {
        a
    } else {
        b
    }
}

impl SessionModel {
    /// The sentinel value is never a live handle.
    pub open spec fn wf(self) -> bool {
        &&& !self.displays.contains_key(DISPMANX_NO_HANDLE)
        &&& !self.resources.contains_key(DISPMANX_NO_HANDLE)
        &&& !self.updates.contains_key(DISPMANX_NO_HANDLE)
        &&& !self.elements.contains_key(DISPMANX_NO_HANDLE)
        &&& !self.initialized ==> self == SessionModel::empty()
    }

    /// An uninitialised session with no live handle.
    pub open spec fn empty() -> SessionModel {
        SessionModel {
            initialized: false,
            displays: Map::empty(),
            resources: Map::empty(),
            updates: Map::empty(),
            elements: Map::empty(),
        }
    }

    pub open spec fn check_initialized(self) -> Result<(), Misuse> {
        if self.initialized {
            Ok(())
        } else {
            Err(Misuse::NotInitialized)
        }
    }

    pub open spec fn check_display(self, d: DisplayHandle) -> Result<(), Misuse> {
        if !self.initialized {
            Err(Misuse::NotInitialized)
        } else if self.displays.contains_key(d) {
            Ok(())
        } else {
            Err(Misuse::UnknownDisplay)
        }
    }

    pub open spec fn check_resource(self, r: ResourceHandle) -> Result<(), Misuse> {
        if !self.initialized {
            Err(Misuse::NotInitialized)
        } else if self.resources.contains_key(r) {
            Ok(())
        } else {
            Err(Misuse::UnknownResource)
        }
    }

    pub open spec fn check_element(self, e: ElementHandle) -> Result<(), Misuse> {
        if !self.initialized {
            Err(Misuse::NotInitialized)
        } else if self.elements.contains_key(e) {
            Ok(())
        } else {
            Err(Misuse::UnknownElement)
        }
    }

    pub open spec fn check_open_update(self, u: UpdateHandle) -> Result<(), Misuse> {
        if !self.initialized {
            Err(Misuse::NotInitialized)
        } else if !self.updates.contains_key(u) {
            Err(Misuse::UnknownUpdate)
        } else if self.updates[u] == UpdateState::Submitted {
            Err(Misuse::UpdateSubmitted)
        } else {
            Ok(())
        }
    }

    /// The checks made before an element is added.
    pub open spec fn check_element_add(
        self,
        u: UpdateHandle,
        d: DisplayHandle,
        src: ResourceHandle,
    ) -> Result<(), Misuse> {
        then_check(
            self.check_open_update(u),
            then_check(self.check_display(d), self.check_resource(src)),
        )
    }

    /// The checks made before an operation on an existing element.
    pub open spec fn check_element_op(self, u: UpdateHandle, e: ElementHandle) -> Result<
        (),
        Misuse,
    > {
        then_check(self.check_open_update(u), self.check_element(e))
    }

    /// The checks made before an element's source is changed.
    pub open spec fn check_element_change_source(
        self,
        u: UpdateHandle,
        e: ElementHandle,
        src: ResourceHandle,
    ) -> Result<(), Misuse> {
        then_check(self.check_element_op(u, e), self.check_resource(src))
    }

    /// The session right after the host is initialised.
    pub open spec fn started() -> SessionModel {
        SessionModel { initialized: true, ..SessionModel::empty() }
    }

    /// The element `e` moved to layer `layer`.
    pub open spec fn with_layer(self, e: ElementHandle, layer: i32) -> SessionModel {
        self.with_element(e, ElementInfo { layer, ..self.elements[e] })
    }

    /// The element `e` showing resource `src`.
    pub open spec fn with_source(self, e: ElementHandle, src: ResourceHandle) -> SessionModel {
        self.with_element(e, ElementInfo { source: src, ..self.elements[e] })
    }

    pub open spec fn with_display(self, d: DisplayHandle, o: DisplayOrigin) -> SessionModel {
        SessionModel { displays: self.displays.insert(d, o), ..self }
    }

    pub open spec fn without_display(self, d: DisplayHandle) -> SessionModel {
        SessionModel { displays: self.displays.remove(d), ..self }
    }

    pub open spec fn with_resource(self, r: ResourceHandle, i: ResourceInfo) -> SessionModel {
        SessionModel { resources: self.resources.insert(r, i), ..self }
    }

    pub open spec fn without_resource(self, r: ResourceHandle) -> SessionModel {
        SessionModel { resources: self.resources.remove(r), ..self }
    }

    pub open spec fn with_update(self, u: UpdateHandle, s: UpdateState) -> SessionModel {
        SessionModel { updates: self.updates.insert(u, s), ..self }
    }

    pub open spec fn with_element(self, e: ElementHandle, i: ElementInfo) -> SessionModel {
        SessionModel { elements: self.elements.insert(e, i), ..self }
    }

    pub open spec fn without_element(self, e: ElementHandle) -> SessionModel {
        SessionModel { elements: self.elements.remove(e), ..self }
    }

    /// Element `a` is drawn behind element `b`: both are live on one display
    /// and `a` has the lower layer.
    pub open spec fn renders_behind(self, a: ElementHandle, b: ElementHandle) -> bool {
        &&& self.elements.contains_key(a)
        &&& self.elements.contains_key(b)
        &&& self.elements[a].display == self.elements[b].display
        &&& self.elements[a].layer < self.elements[b].layer
    }
}

/// The handles that a client of the firmware holds, and whether the host is
/// initialised. Each operation is first checked against it, and then the
/// firmware's answer is recorded in it.
pub struct Session {
    initialized: bool,
    displays: HashMap<DisplayHandle, DisplayOrigin>,
    resources: HashMap<ResourceHandle, ResourceInfo>,
    updates: HashMap<UpdateHandle, UpdateState>,
    elements: HashMap<ElementHandle, ElementInfo>,
}

impl View for Session {
    type V = SessionModel;

    closed spec fn view(&self) -> SessionModel {
        SessionModel {
            initialized: self.initialized,
            displays: self.displays@,
            resources: self.resources@,
            updates: self.updates@,
            elements: self.elements@,
        }
    }
}

impl Session {
    /// A session whose host is not initialised yet.
    pub fn new() -> (r: Session)
        ensures
            r@ == SessionModel::empty(),
            r@.wf(),
    {
        let r = Session {
            initialized: false,
            displays: HashMap::new(),
            resources: HashMap::new(),
            updates: HashMap::new(),
            elements: HashMap::new(),
        };
        assert(r@ =~= SessionModel::empty());
        r
    }

    /// Whether the host is initialised.
    pub fn require_initialized(&self) -> (r: Result<(), Misuse>)
        ensures
            r == self@.check_initialized(),
    {
        if self.initialized {
            Ok(())
        } else {
            Err(Misuse::NotInitialized)
        }
    }

    /// Whether `d` is a live display.
    pub fn require_display(&self, d: DisplayHandle) -> (r: Result<(), Misuse>)
        ensures
            r == self@.check_display(d),
    {
        if !self.initialized {
            Err(Misuse::NotInitialized)
        } else if self.displays.contains_key(&d) {
            Ok(())
        } else {
            Err(Misuse::UnknownDisplay)
        }
    }

    /// Whether `res` is a live resource.
    pub fn require_resource(&self, res: ResourceHandle) -> (r: Result<(), Misuse>)
        ensures
            r == self@.check_resource(res),
    {
        if !self.initialized {
            Err(Misuse::NotInitialized)
        } else if self.resources.contains_key(&res) {
            Ok(())
        } else {
            Err(Misuse::UnknownResource)
        }
    }

    /// Whether `e` is a live element.
    pub fn require_element(&self, e: ElementHandle) -> (r: Result<(), Misuse>)
        ensures
            r == self@.check_element(e),
    {
        if !self.initialized {
            Err(Misuse::NotInitialized)
        } else if self.elements.contains_key(&e) {
            Ok(())
        } else {
            Err(Misuse::UnknownElement)
        }
    }

    /// Whether `u` is an update that still takes operations.
    pub fn require_open_update(&self, u: UpdateHandle) -> (r: Result<(), Misuse>)
        ensures
            r == self@.check_open_update(u),
    {
        if !self.initialized {
            return Err(Misuse::NotInitialized);
        }
        match self.updates.get(&u) {
            None => Err(Misuse::UnknownUpdate),
            Some(UpdateState::Submitted) => Err(Misuse::UpdateSubmitted),
            Some(UpdateState::Open) => Ok(()),
        }
    }

    /// Whether `d` is a live display and `res` a live resource, for the
    /// operations that take both (setting a display's destination, taking a
    /// snapshot).
    pub fn require_display_and_resource(&self, d: DisplayHandle, res: ResourceHandle) -> (r:
        Result<(), Misuse>)
        ensures
            r == then_check(self@.check_display(d), self@.check_resource(res)),
    {
        match self.require_display(d) {
            Err(e) => Err(e),
            Ok(()) => self.require_resource(res),
        }
    }

    /// Whether `u` still takes operations and `d` is a live display, for
    /// setting a display's background within an update.
    pub fn require_update_and_display(&self, u: UpdateHandle, d: DisplayHandle) -> (r: Result<
        (),
        Misuse,
    >)
        ensures
            r == then_check(self@.check_open_update(u), self@.check_display(d)),
    {
        match self.require_open_update(u) {
            Err(e) => Err(e),
            Ok(()) => self.require_display(d),
        }
    }

    /// Whether an element may be added to display `d` within update `u`,
    /// showing resource `src`.
    pub fn element_add_allowed(&self, u: UpdateHandle, d: DisplayHandle, src: ResourceHandle) -> (r:
        Result<(), Misuse>)
        ensures
            r == self@.check_element_add(u, d, src),
    {
        match self.require_open_update(u) {
            Err(e) => Err(e),
            Ok(()) => self.require_display_and_resource(d, src),
        }
    }

    /// Whether element `e` may be changed, marked modified or removed within
    /// update `u`.
    pub fn element_op_allowed(&self, u: UpdateHandle, e: ElementHandle) -> (r: Result<
        (),
        Misuse,
    >)
        ensures
            r == self@.check_element_op(u, e),
    {
        match self.require_open_update(u) {
            Err(m) => Err(m),
            Ok(()) => self.require_element(e),
        }
    }

    /// Whether element `e` may be given resource `src` as its source within
    /// update `u`.
    pub fn element_change_source_allowed(
        &self,
        u: UpdateHandle,
        e: ElementHandle,
        src: ResourceHandle,
    ) -> (r: Result<(), Misuse>)
        ensures
            r == self@.check_element_change_source(u, e, src),
    {
        match self.element_op_allowed(u, e) {
            Err(m) => Err(m),
            Ok(()) => self.require_resource(src),
        }
    }

    /// Initialises the host. Only an uninitialised session may be
    /// initialised; `Ok` means that the firmware is to be initialised.
    pub fn init(&mut self) -> (r: Result<(), Misuse>)
        requires
            old(self)@.wf(),
        ensures
            final(self)@.wf(),
            old(self)@.initialized ==> r == Err::<(), Misuse>(Misuse::AlreadyInitialized)
                && final(self)@ == old(self)@,
            !old(self)@.initialized ==> r is Ok && final(self)@ == SessionModel::started(),
    {
        if self.initialized {
            return Err(Misuse::AlreadyInitialized);
        }
        self.initialized = true;
        assert(self@ =~= SessionModel::started());
        Ok(())
    }

    /// Releases the host; every handle becomes invalid. `Ok` means that the
    /// firmware is to be released.
    pub fn deinit(&mut self) -> (r: Result<(), Misuse>)
        requires
            old(self)@.wf(),
        ensures
            final(self)@.wf(),
            !old(self)@.initialized ==> r == Err::<(), Misuse>(Misuse::NotInitialized)
                && final(self)@ == old(self)@,
            old(self)@.initialized ==> r is Ok && final(self)@ == SessionModel::empty(),
    {
        if !self.initialized {
            return Err(Misuse::NotInitialized);
        }
        self.initialized = false;
        self.displays.clear();
        self.resources.clear();
        self.updates.clear();
        self.elements.clear();
        assert(self@ =~= SessionModel::empty());
        Ok(())
    }

    /// Records the handle that the firmware returned for opening device
    /// `device`; `None` where it returned the sentinel.
    pub fn display_open(&mut self, device: u32, raw: DisplayHandle) -> (r: Option<DisplayHandle>)
        requires
            old(self)@.wf(),
            old(self)@.check_initialized() is Ok,
        ensures
            final(self)@.wf(),
            r == (if raw == DISPMANX_NO_HANDLE {
                None
            } else {
                Some(raw)
            }),
            final(self)@ == (if raw == DISPMANX_NO_HANDLE {
                old(self)@
            } else {
                old(self)@.with_display(raw, DisplayOrigin::Device(device))
            }),
    {
        self.record_display(DisplayOrigin::Device(device), raw)
    }

    /// Records the handle that the firmware returned for opening device
    /// `device` in a given mode; as `display_open`.
    pub fn display_open_mode(&mut self, device: u32, raw: DisplayHandle) -> (r: Option<
        DisplayHandle,
    >)
        requires
            old(self)@.wf(),
            old(self)@.check_initialized() is Ok,
        ensures
            final(self)@.wf(),
            r == (if raw == DISPMANX_NO_HANDLE {
                None
            } else {
                Some(raw)
            }),
            final(self)@ == (if raw == DISPMANX_NO_HANDLE {
                old(self)@
            } else {
                old(self)@.with_display(raw, DisplayOrigin::Device(device))
            }),
    {
        self.record_display(DisplayOrigin::Device(device), raw)
    }

    /// Records the handle that the firmware returned for opening an
    /// off-screen display that renders into resource `dest`.
    pub fn display_open_offscreen(&mut self, dest: ResourceHandle, raw: DisplayHandle) -> (r:
        Option<DisplayHandle>)
        requires
            old(self)@.wf(),
            old(self)@.check_resource(dest) is Ok,
        ensures
            final(self)@.wf(),
            r == (if raw == DISPMANX_NO_HANDLE {
                None
            } else {
                Some(raw)
            }),
            final(self)@ == (if raw == DISPMANX_NO_HANDLE {
                old(self)@
            } else {
                old(self)@.with_display(raw, DisplayOrigin::Offscreen(dest))
            }),
    {
        self.record_display(DisplayOrigin::Offscreen(dest), raw)
    }

    fn record_display(&mut self, origin: DisplayOrigin, raw: DisplayHandle) -> (r: Option<
        DisplayHandle,
    >)
        requires
            old(self)@.wf(),
            old(self)@.initialized,
        ensures
            final(self)@.wf(),
            r == (if raw == DISPMANX_NO_HANDLE {
                None
            } else {
                Some(raw)
            }),
            final(self)@ == (if raw == DISPMANX_NO_HANDLE {
                old(self)@
            } else {
                old(self)@.with_display(raw, origin)
            }),
    {
        if raw == DISPMANX_NO_HANDLE {
            return None;
        }
        self.displays.insert(raw, origin);
        assert(self@ =~= old(self)@.with_display(raw, origin));
        Some(raw)
    }

    /// Records the firmware's status for closing display `d`: only on
    /// success does the handle stop being valid.
    pub fn display_close(&mut self, d: DisplayHandle, status: i32) -> (r: bool)
        requires
            old(self)@.wf(),
            old(self)@.check_display(d) is Ok,
        ensures
            final(self)@.wf(),
            r == (status > 0),
            final(self)@ == (if r {
                old(self)@.without_display(d)
            } else {
                old(self)@
            }),
    {
        if status <= 0 {
            return false;
        }
        self.displays.remove(&d);
        assert(self@ =~= old(self)@.without_display(d));
        true
    }

    /// Records the handle that the firmware returned for a new resource;
    /// `None` where it returned the sentinel.
    pub fn resource_create(
        &mut self,
        image_type: ImageType,
        width: u32,
        height: u32,
        raw: ResourceHandle,
    ) -> (r: Option<ResourceHandle>)
        requires
            old(self)@.wf(),
            old(self)@.check_initialized() is Ok,
        ensures
            final(self)@.wf(),
            r == (if raw == DISPMANX_NO_HANDLE {
                None
            } else {
                Some(raw)
            }),
            final(self)@ == (if raw == DISPMANX_NO_HANDLE {
                old(self)@
            } else {
                old(self)@.with_resource(raw, ResourceInfo { image_type, width, height })
            }),
    {
        if raw == DISPMANX_NO_HANDLE {
            return None;
        }
        let info = ResourceInfo { image_type, width, height };
        self.resources.insert(raw, info);
        assert(self@ =~= old(self)@.with_resource(raw, info));
        Some(raw)
    }

    /// Records the firmware's status for deleting resource `res`: only on
    /// success does the handle stop being valid.
    pub fn resource_delete(&mut self, res: ResourceHandle, status: i32) -> (r: bool)
        requires
            old(self)@.wf(),
            old(self)@.check_resource(res) is Ok,
        ensures
            final(self)@.wf(),
            r == (status > 0),
            final(self)@ == (if r {
                old(self)@.without_resource(res)
            } else {
                old(self)@
            }),
    {
        if status <= 0 {
            return false;
        }
        self.resources.remove(&res);
        assert(self@ =~= old(self)@.without_resource(res));
        true
    }

    /// Records the handle that the firmware returned for a new update;
    /// `None` where it returned the sentinel. A new update is open.
    pub fn update_start(&mut self, raw: UpdateHandle) -> (r: Option<UpdateHandle>)
        requires
            old(self)@.wf(),
            old(self)@.check_initialized() is Ok,
        ensures
            final(self)@.wf(),
            r == (if raw == DISPMANX_NO_HANDLE {
                None
            } else {
                Some(raw)
            }),
            final(self)@ == (if raw == DISPMANX_NO_HANDLE {
                old(self)@
            } else {
                old(self)@.with_update(raw, UpdateState::Open)
            }),
    {
        if raw == DISPMANX_NO_HANDLE {
            return None;
        }
        self.updates.insert(raw, UpdateState::Open);
        assert(self@ =~= old(self)@.with_update(raw, UpdateState::Open));
        Some(raw)
    }

    /// Records the firmware's status for submitting update `u`. Whatever the
    /// status, the update is submitted and takes no more operations.
    pub fn update_submit(&mut self, u: UpdateHandle, status: i32) -> (r: bool)
        requires
            old(self)@.wf(),
            old(self)@.check_open_update(u) is Ok,
        ensures
            final(self)@.wf(),
            r == (status > 0),
            final(self)@ == old(self)@.with_update(u, UpdateState::Submitted),
    {
        self.updates.insert(u, UpdateState::Submitted);
        assert(self@ =~= old(self)@.with_update(u, UpdateState::Submitted));
        status > 0
    }

    /// Records the firmware's status for submitting update `u` and waiting
    /// for it to be applied; as `update_submit`.
    pub fn update_submit_sync(&mut self, u: UpdateHandle, status: i32) -> (r: bool)
        requires
            old(self)@.wf(),
            old(self)@.check_open_update(u) is Ok,
        ensures
            final(self)@.wf(),
            r == (status > 0),
            final(self)@ == old(self)@.with_update(u, UpdateState::Submitted),
    {
        self.update_submit(u, status)
    }

    /// Records the handle that the firmware returned for an element added to
    /// display `d` at layer `layer`, showing resource `src`; `None` where it
    /// returned the sentinel.
    pub fn element_add(
        &mut self,
        u: UpdateHandle,
        d: DisplayHandle,
        layer: i32,
        src: ResourceHandle,
        raw: ElementHandle,
    ) -> (r: Option<ElementHandle>)
        requires
            old(self)@.wf(),
            old(self)@.check_element_add(u, d, src) is Ok,
        ensures
            final(self)@.wf(),
            r == (if raw == DISPMANX_NO_HANDLE {
                None
            } else {
                Some(raw)
            }),
            final(self)@ == (if raw == DISPMANX_NO_HANDLE {
                old(self)@
            } else {
                old(self)@.with_element(raw, ElementInfo { display: d, layer, source: src })
            }),
    {
        if raw == DISPMANX_NO_HANDLE {
            return None;
        }
        let info = ElementInfo { display: d, layer, source: src };
        self.elements.insert(raw, info);
        assert(self@ =~= old(self)@.with_element(raw, info));
        Some(raw)
    }

    fn set_layer(&mut self, e: ElementHandle, layer: i32)
        requires
            old(self)@.wf(),
            old(self)@.elements.contains_key(e),
        ensures
            final(self)@.wf(),
            final(self)@ == old(self)@.with_layer(e, layer),
    {
        let info = *self.elements.get(&e).unwrap();
        self.elements.insert(e, ElementInfo { layer, ..info });
        assert(self@ =~= old(self)@.with_layer(e, layer));
    }

    /// Records the firmware's status for changing the attributes of element
    /// `e`. On success, the element takes layer `layer` where `change_flags`
    /// holds the layer bit.
    pub fn element_change_attributes(
        &mut self,
        u: UpdateHandle,
        e: ElementHandle,
        change_flags: u32,
        layer: i32,
        status: i32,
    ) -> (r: bool)
        requires
            old(self)@.wf(),
            old(self)@.check_element_op(u, e) is Ok,
        ensures
            final(self)@.wf(),
            r == (status > 0),
            final(self)@ == (if r && change_flags & ELEMENT_CHANGE_LAYER != 0 {
                old(self)@.with_layer(e, layer)
            } else {
                old(self)@
            }),
    {
        if status <= 0 {
            return false;
        }
        if change_flags & ELEMENT_CHANGE_LAYER != 0 {
            self.set_layer(e, layer);
        }
        true
    }

    /// Records the firmware's status for moving element `e` to layer
    /// `layer`.
    pub fn element_change_layer(
        &mut self,
        u: UpdateHandle,
        e: ElementHandle,
        layer: i32,
        status: i32,
    ) -> (r: bool)
        requires
            old(self)@.wf(),
            old(self)@.check_element_op(u, e) is Ok,
        ensures
            final(self)@.wf(),
            r == (status > 0),
            final(self)@ == (if r {
                old(self)@.with_layer(e, layer)
            } else {
                old(self)@
            }),
    {
        if status <= 0 {
            return false;
        }
        self.set_layer(e, layer);
        true
    }

    /// Records the firmware's status for giving element `e` resource `src` as
    /// its source.
    pub fn element_change_source(
        &mut self,
        u: UpdateHandle,
        e: ElementHandle,
        src: ResourceHandle,
        status: i32,
    ) -> (r: bool)
        requires
            old(self)@.wf(),
            old(self)@.check_element_change_source(u, e, src) is Ok,
        ensures
            final(self)@.wf(),
            r == (status > 0),
            final(self)@ == (if r {
                old(self)@.with_source(e, src)
            } else {
                old(self)@
            }),
    {
        if status <= 0 {
            return false;
        }
        let info = *self.elements.get(&e).unwrap();
        self.elements.insert(e, ElementInfo { source: src, ..info });
        assert(self@ =~= old(self)@.with_source(e, src));
        true
    }

    /// Records the firmware's status for removing element `e`: only on
    /// success does the handle stop being valid.
    pub fn element_remove(&mut self, u: UpdateHandle, e: ElementHandle, status: i32) -> (r: bool)
        requires
            old(self)@.wf(),
            old(self)@.check_element_op(u, e) is Ok,
        ensures
            final(self)@.wf(),
            r == (status > 0),
            final(self)@ == (if r {
                old(self)@.without_element(e)
            } else {
                old(self)@
            }),
    {
        if status <= 0 {
            return false;
        }
        self.elements.remove(&e);
        assert(self@ =~= old(self)@.without_element(e));
        true
    }

    /// Whether element `a` is drawn behind element `b`.
    pub fn renders_behind(&self, a: ElementHandle, b: ElementHandle) -> (r: bool)
        ensures
            r == self@.renders_behind(a, b),
    {
        match (self.elements.get(&a), self.elements.get(&b)) {
            (Some(x), Some(y)) => x.display == y.display && x.layer < y.layer,
            _ => false,
        }
    }
}

/// Once an update has been submitted it takes no more operations: adding an
/// element, changing, marking or removing one, changing an element's source,
/// setting a display's background and submitting again are all refused.
pub proof fn lemma_submitted_update_refuses_operations(
    m: SessionModel,
    u: UpdateHandle,
    d: DisplayHandle,
    e: ElementHandle,
    src: ResourceHandle,
)
    ensures
        ({
            let s = m.with_update(u, UpdateState::Submitted);
            &&& s.check_open_update(u) is Err
            &&& s.check_element_add(u, d, src) is Err
            &&& s.check_element_op(u, e) is Err
            &&& s.check_element_change_source(u, e, src) is Err
            &&& then_check(s.check_open_update(u), s.check_display(d)) is Err
        }),
{
}

/// Opening a display and closing it with no operation in between: the close
/// is allowed, and once it has succeeded the handle is no longer valid, so a
/// second close is refused. Where the handle was not live before, the session
/// is left as it was before the open.
pub proof fn lemma_display_open_then_close(m: SessionModel, device: u32, h: DisplayHandle)
    requires
        m.wf(),
        m.initialized,
        h != DISPMANX_NO_HANDLE,
    ensures
        ({
            let opened = m.with_display(h, DisplayOrigin::Device(device));
            let closed = opened.without_display(h);
            &&& opened.wf()
            &&& opened.check_display(h) is Ok
            &&& closed.wf()
            &&& closed.check_display(h) == Err::<(), Misuse>(Misuse::UnknownDisplay)
            &&& !m.displays.contains_key(h) ==> closed == m
        }),
{
    let opened = m.with_display(h, DisplayOrigin::Device(device));
    let closed = opened.without_display(h);
    if !m.displays.contains_key(h) {
        assert(closed.displays =~= m.displays);
    }
}

/// Of two elements added to one display, the one with the lower layer is
/// drawn behind the other, whichever of the two was added first.
pub proof fn lemma_lower_layer_renders_behind(
    m: SessionModel,
    d: DisplayHandle,
    a: ElementHandle,
    la: i32,
    sa: ResourceHandle,
    b: ElementHandle,
    lb: i32,
    sb: ResourceHandle,
)
    requires
        a != b,
        la < lb,
    ensures
        ({
            let ea = ElementInfo { display: d, layer: la, source: sa };
            let eb = ElementInfo { display: d, layer: lb, source: sb };
            &&& m.with_element(a, ea).with_element(b, eb).renders_behind(a, b)
            &&& m.with_element(b, eb).with_element(a, ea).renders_behind(a, b)
            &&& !m.with_element(a, ea).with_element(b, eb).renders_behind(b, a)
            &&& !m.with_element(b, eb).with_element(a, ea).renders_behind(b, a)
        }),
{
}

} // verus!
