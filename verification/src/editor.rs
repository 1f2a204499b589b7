//! The editor shim: satisfies the host's editor lifecycle contract by
//! spawning a web-view attached to the host's window and serving later
//! size, scale-factor and parameter-change calls.
//!
//! The web-view is an outside resource; here an instance is modelled by
//! what the shim reads of it — its layout bounds — together with the
//! bookkeeping of its shared ownership: one reference retained by the
//! shim for size queries, one inside the handle object returned to the
//! host for teardown. The glue that creates the real web-view drives the
//! shim in two steps: `prepare_spawn` decides what to create, and
//! `complete_spawn` records what came of the creation.

use crate::handle::HandleError;
use crate::handle::NativeWindowHandle;
use crate::handle::ParentWindowHandle;
use crate::handle::adapt_window_handle;
use vstd::prelude::*;

verus! {

/// An editor shim for one plugin instance: the user-supplied state value
/// (opaque to this crate), the URL the web-view loads, and the web-views
/// spawned so far.
pub struct WryEditor<T> {
    /// The user-supplied state value, held for the plugin's lifetime.
    pub user_state: T,
    /// The URL every spawned web-view loads.
    pub url: String,
    /// The spawned web-views, in spawn order, each with its reference
    /// bookkeeping. Size queries target the first entry.
    pub spawned: Vec<SpawnedWebView>,
}

/// What the shim reads of an embedded web-view: its layout bounds in
/// pixels. The shim works at the fixed scale factor of one logical pixel
/// per pixel, under which physical and logical sizes coincide.
#[derive(Clone, Copy, PartialEq, Eq, Structural, Debug)]
pub struct WebViewBounds {
    pub width: u32,
    pub height: u32,
}

/// One spawned web-view instance: its bounds and the number of
/// outstanding references to it (the shim's retained one plus every
/// handle object still held by the host).
#[derive(Clone, Copy, PartialEq, Eq, Structural, Debug)]
pub struct SpawnedWebView {
    pub bounds: WebViewBounds,
    pub refs: u64,
}

/// A host-supplied fractional quantity (a scale factor, a normalized
/// parameter value, a modulation offset), carried in thousandths so that
/// it stays a plain integer value; the boundary that talks to the host
/// converts.
#[derive(Clone, Copy, PartialEq, Eq, Structural, Debug)]
pub struct Thousandths {
    pub value: i64,
}

/// The attributes a web-view is created with: the URL to load, and
/// whether developer tools are enabled.
pub struct WebViewAttributes {
    pub url: String,
    pub devtools: bool,
}

/// What `prepare_spawn` decides: the adapted native parent handle the
/// web-view is attached to as a child, and the attributes it is created
/// with.
pub struct SpawnRequest {
    pub parent: NativeWindowHandle,
    pub attributes: WebViewAttributes,
}

/// The opaque destruction-capable object handed back to the host: it
/// owns one of the references to the spawned web-view it came from.
/// When the host discards it, that reference is to be released.
#[derive(Clone, Copy, PartialEq, Eq, Structural, Debug)]
pub struct WryEditorHandle {
    /// The position of the web-view in the shim's spawn order.
    pub view_index: usize,
}

/// Why an editor lifecycle call failed. Every failure is a typed value:
/// no call of the shim aborts.
#[derive(Clone, Copy, PartialEq, Eq, Structural, Debug)]
pub enum EditorError {
    /// The host supplied a zero/null parent window handle: a breach of
    /// the host's side of the contract.
    NullParentHandle,
    /// The web-view library could not construct the view (for one, a
    /// missing system web-view runtime): recoverable at the call site.
    WebViewCreation,
    /// A size query arrived before any web-view was spawned.
    NoWebViewSpawned,
    /// Parameter bridging into the web content has no design yet; the
    /// call is a documented no-op.
    ParameterBridgingUnimplemented,
}

impl SpawnedWebView {
    /// One reference released: the count drops by one, and the
    /// underlying resource is destroyed exactly when the last
    /// outstanding reference goes.
    pub open spec fn release_spec(self) -> (SpawnedWebView, bool) {
        (SpawnedWebView { bounds: self.bounds, refs: (self.refs - 1) as u64 }, self.refs == 1)
    }
}

/// Build a new editor shim around a user state value and a URL.
///
/// The host's configuration surface: the option is always populated —
/// construction itself cannot fail — with no web-view spawned yet.
pub fn create_wry_editor<T>(user_state: T, url: String) -> (r: Option<WryEditor<T>>)
    ensures
        r is Some,
        r matches Some(editor) ==> editor.user_state == user_state && editor.url@ == url@
            && editor.spawned@.len() == 0,
{
    Some(WryEditor { user_state, url, spawned: Vec::new() })
}

impl<T> WryEditor<T> {
    /// Decide what the spawn call creates: adapt the host's parent
    /// window handle, and fix the attributes of the web-view to be
    /// created as its child — the configured URL, with developer tools
    /// enabled.
    ///
    /// Succeeds exactly when the parent handle carries a non-zero
    /// identity; a zero/null handle is rejected with a typed error and
    /// nothing is created.
    pub fn prepare_spawn(&self, parent: ParentWindowHandle) -> (r: Result<
        SpawnRequest,
        EditorError,
    >)
        ensures
            r is Ok <==> !parent.is_null(),
            parent.is_null() ==> (r matches Err(e) && e == EditorError::NullParentHandle),
            r matches Ok(request) ==> request.parent.wf() && request.parent.adapts(parent)
                && request.attributes.url@ == self.url@ && request.attributes.devtools,
    {
        match adapt_window_handle(parent) {
            Ok(native) => Ok(
                SpawnRequest {
                    parent: native,
                    attributes: WebViewAttributes { url: self.url.clone(), devtools: true },
                },
            ),
            Err(HandleError::NullHandle) => Err(EditorError::NullParentHandle),
        }
    }

    /// Record what came of the web-view creation that `prepare_spawn`
    /// requested.
    ///
    /// On a created view (its initial bounds are handed in), the shim
    /// retains one reference for later size queries, appends the view to
    /// its spawn order, and returns the handle object for the host, which
    /// owns the second reference. On a creation failure (`None`), the
    /// shim is left unchanged and the typed error is surfaced instead of
    /// aborting.
    pub fn complete_spawn(&mut self, created: Option<WebViewBounds>) -> (r: Result<
        WryEditorHandle,
        EditorError,
    >)
        ensures
            r is Ok <==> created is Some,
            created matches Some(bounds) ==> (r matches Ok(handle)
                && handle.view_index == old(self).spawned@.len()
                && final(self).spawned@ == old(self).spawned@.push(
                SpawnedWebView { bounds, refs: 2 },
            )),
            created is None ==> (r matches Err(e) && e == EditorError::WebViewCreation
                && *final(self) == *old(self)),
            final(self).url@ == old(self).url@ && final(self).user_state == old(self).user_state,
    {
        match created {
            Some(bounds) => {
                let view_index = self.spawned.len();
                self.spawned.push(SpawnedWebView { bounds, refs: 2 });
                Ok(WryEditorHandle { view_index })
            },
            None => Err(EditorError::WebViewCreation),
        }
    }

    /// The current size of the first spawned web-view, in logical pixels
    /// at the fixed scale factor of one — equal to its pixel bounds.
    ///
    /// Before any spawn there is nothing to measure: the call fails with
    /// a typed error rather than aborting.
    pub fn size(&self) -> (r: Result<(u32, u32), EditorError>)
        ensures
            r is Ok <==> self.spawned@.len() > 0,
            self.spawned@.len() == 0 ==> (r matches Err(e) && e == EditorError::NoWebViewSpawned),
            self.spawned@.len() > 0 ==> (r matches Ok(size) && size == (
                self.spawned@[0].bounds.width,
                self.spawned@[0].bounds.height,
            )),
    {
        if self.spawned.len() == 0 {
            Err(EditorError::NoWebViewSpawned)
        } else {
            let bounds = self.spawned[0].bounds;
            Ok((bounds.width, bounds.height))
        }
    }

    /// React to a host scale-factor change: never accepted, whatever the
    /// factor — the embedded web-view handles scaling on its own, a
    /// deliberate simplification. Pure: no observable state is read or
    /// changed.
    pub fn set_scale_factor(&self, _factor: Thousandths) -> (accepted: bool)
        ensures
            !accepted,
    {
        false
    }

    /// Host notification that one parameter's normalized value changed.
    /// Bridging parameter events into the web content has no design yet:
    /// the call is a documented no-op with a typed partial-feature
    /// result, never an abort.
    pub fn param_value_changed(&self, _id: &str, _normalized_value: Thousandths) -> (r: Result<
        (),
        EditorError,
    >)
        ensures
            r matches Err(e) && e == EditorError::ParameterBridgingUnimplemented,
    {
        Err(EditorError::ParameterBridgingUnimplemented)
    }

    /// Host notification that one parameter's modulation offset changed.
    /// Unimplemented in the same way as `param_value_changed`.
    pub fn param_modulation_changed(&self, _id: &str, _modulation_offset: Thousandths) -> (r: Result<
        (),
        EditorError,
    >)
        ensures
            r matches Err(e) && e == EditorError::ParameterBridgingUnimplemented,
    {
        Err(EditorError::ParameterBridgingUnimplemented)
    }

    /// Host notification that many parameter values changed at once.
    /// Unimplemented in the same way as `param_value_changed`.
    pub fn param_values_changed(&self) -> (r: Result<(), EditorError>)
        ensures
            r matches Err(e) && e == EditorError::ParameterBridgingUnimplemented,
    {
        Err(EditorError::ParameterBridgingUnimplemented)
    }

    /// Record the bounds the web-view at `view_index` currently has, as
    /// the boundary that talks to the real view reports them. Only the
    /// bounds change: the spawn order and the reference bookkeeping stay.
    pub fn observe_bounds(&mut self, view_index: usize, bounds: WebViewBounds)
        requires
            view_index < old(self).spawned@.len(),
        ensures
            final(self).spawned@ == old(self).spawned@.update(
                view_index as int,
                SpawnedWebView { bounds, refs: old(self).spawned@[view_index as int].refs },
            ),
            final(self).url@ == old(self).url@ && final(self).user_state == old(self).user_state,
    {
        let refs = self.spawned[view_index].refs;
        self.spawned[view_index] = SpawnedWebView { bounds, refs };
    }

    /// Drop one reference to the spawned web-view at `view_index`: the
    /// host discarded a handle object, or the shim itself is being torn
    /// down and gives up its retained reference.
    ///
    /// Returns whether this release destroyed the underlying resource,
    /// which happens exactly when the released reference was the last
    /// outstanding one. Releasing a reference of a view that has none
    /// left is a double release and is excluded by precondition.
    pub fn release(&mut self, view_index: usize) -> (destroyed: bool)
        requires
            view_index < old(self).spawned@.len(),
            old(self).spawned@[view_index as int].refs > 0,
        ensures
            final(self).spawned@ == old(self).spawned@.update(
                view_index as int,
                old(self).spawned@[view_index as int].release_spec().0,
            ),
            destroyed == old(self).spawned@[view_index as int].release_spec().1,
            final(self).url@ == old(self).url@ && final(self).user_state == old(self).user_state,
    {
        let view = self.spawned[view_index];
        self.spawned[view_index] = SpawnedWebView { bounds: view.bounds, refs: view.refs - 1 };
        view.refs == 1
    }
}

/// The web-view after `count` of its references have been released, one
/// at a time.
pub open spec fn after_releases(view: SpawnedWebView, count: nat) -> SpawnedWebView
    decreases count,
{
    if count == 0 {
        view
    } else {
        after_releases(view, (count - 1) as nat).release_spec().0
    }
}

/// Releasing every outstanding reference of a spawned web-view destroys
/// the underlying resource exactly once: of the `view.refs` successive
/// releases, the one that drops the last reference signals destruction,
/// and no earlier one does.
pub proof fn lemma_release_exactly_once(view: SpawnedWebView, count: nat)
    requires
        count < view.refs,
    ensures
        after_releases(view, count).refs == view.refs - count,
        after_releases(view, count).release_spec().1 <==> count + 1 == view.refs,
    decreases count,
{
    if count > 0 {
        lemma_release_exactly_once(view, (count - 1) as nat);
    }
}

} // verus!
