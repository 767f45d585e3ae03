//! Client capabilities as JavaScript sees them, and their conversion to and
//! from the protocol's own capabilities.
use vstd::prelude::*;
use crate::json::{is_object, members_sorted, JsonTree, JsonValue};
use crate::protocol::{
    clone_experimental, experimental_from_tree, experimental_from_value, experimental_to_value,
    check_experimental_sorted, experimental_kept, experimental_tree, experimental_view,
    experimental_wf, nested_sorted, capabilities_wf,
    ClientCapabilities, ClientCapabilitiesView,
    ExperimentalCapabilities, ExperimentalTree, RootsCapabilities,
};

verus! {

/// Whether the prompts list announces changes.
#[derive(Debug, Clone, Copy, PartialEq, Eq)]
pub struct JsPromptsCapability {
    pub list_changed: Option<bool>,
}

/// Whether resources can be subscribed to and whether their list announces changes.
#[derive(Debug, Clone, Copy, PartialEq, Eq)]
pub struct JsResourcesCapability {
    pub subscribe: Option<bool>,
    pub list_changed: Option<bool>,
}

/// Whether the tools list announces changes.
#[derive(Debug, Clone, Copy, PartialEq, Eq)]
pub struct JsToolsCapability {
    pub list_changed: Option<bool>,
}

/// Whether the client announces changes of its roots list.
#[derive(Debug, Clone, Copy, PartialEq, Eq, Structural)]
pub struct JsRootsCapabilities {
    pub list_changed: Option<bool>,
}

impl Default for JsRootsCapabilities {
    fn default() -> (r: JsRootsCapabilities)
        ensures
            r.list_changed is None,
    {
        JsRootsCapabilities { list_changed: None }
    }
}

impl JsRootsCapabilities {
    /// Roots capabilities that say nothing of list changes.
    pub fn new() -> (r: JsRootsCapabilities)
        ensures
            r.list_changed is None,
    {
        JsRootsCapabilities { list_changed: None }
    }

    /// The protocol's form of these capabilities.
    pub fn to_rust(&self) -> (r: RootsCapabilities)
        ensures
            r.list_changed == self.list_changed,
    {
        RootsCapabilities { list_changed: self.list_changed }
    }

    /// These capabilities from the protocol's form.
    pub fn from_rust(core: &RootsCapabilities) -> (r: JsRootsCapabilities)
        ensures
            r.list_changed == core.list_changed,
    {
        JsRootsCapabilities { list_changed: core.list_changed }
    }
}

/// The experimental capabilities that a JSON value reads as: those it holds when
/// it is an object of objects whose names and settings are sorted, each name
/// once (as every object that serde_json reads is), and none otherwise.
pub open spec fn experimental_read(t: JsonTree) -> ExperimentalTree {
    match experimental_from_tree(t) {
        Some(e) => experimental_kept(e),
        None => Seq::empty(),
    }
}

/// Experimental capabilities as JavaScript sees them: each name with its
/// settings object.  Like the `BTreeMap` of serde_json maps that they stand for,
/// they keep their names sorted, each once, and the members of each settings
/// object sorted, each once (the type's invariant, `experimental_wf`).
#[derive(Debug, PartialEq)]
pub struct JsExperimentalCapabilities {
    inner: ExperimentalCapabilities,
}

impl JsExperimentalCapabilities {
    #[verifier::type_invariant]
    spec fn names_in_order(self) -> bool {
        experimental_wf(experimental_view(self.inner))
    }
}

impl View for JsExperimentalCapabilities {
    type V = ExperimentalTree;

    closed spec fn view(&self) -> ExperimentalTree {
        experimental_view(self.inner)
    }
}

impl Default for JsExperimentalCapabilities {
    fn default() -> (r: JsExperimentalCapabilities)
        ensures
            r@ == Seq::<(Seq<char>, Seq<(Seq<char>, JsonTree)>)>::empty(),
            experimental_wf(r@),
    {
        let r = JsExperimentalCapabilities { inner: Vec::new() };
        assert(r@ =~= Seq::empty());
        r
    }
}

impl JsExperimentalCapabilities {
    /// Experimental capabilities from a JSON value: the value's members when it is
    /// an object whose members are all objects, with names and settings sorted,
    /// and none otherwise.
    pub fn new(value: JsonValue) -> (r: JsExperimentalCapabilities)
        ensures
            r@ == experimental_read(value@),
            experimental_wf(r@),
    {
        match experimental_from_value(value) {
            Some(e) => {
                if check_experimental_sorted(&e) {
                    JsExperimentalCapabilities { inner: e }
                } else {
                    JsExperimentalCapabilities::default()
                }
            },
            None => JsExperimentalCapabilities::default(),
        }
    }

    /// The JSON form of these capabilities: an object of the settings objects.
    pub fn to_json(&self) -> (r: JsonValue)
        ensures
            r@ == experimental_tree(self@),
            experimental_wf(self@),
            nested_sorted(r@),
    {
        proof {
            use_type_invariant(self);
            crate::protocol::lemma_experimental_tree_wf(self@);
        }
        experimental_to_value(clone_experimental(&self.inner))
    }

    /// Experimental capabilities from a JSON value, as `new` reads it.
    pub fn from_js(value: JsonValue) -> (r: JsExperimentalCapabilities)
        ensures
            r@ == experimental_read(value@),
            experimental_wf(r@),
    {
        JsExperimentalCapabilities::new(value)
    }

    /// The names with their settings.
    pub fn inner(&self) -> (r: &ExperimentalCapabilities)
        ensures
            experimental_view(*r) == self@,
            experimental_wf(self@),
    {
        proof {
            use_type_invariant(self);
        }
        &self.inner
    }

    /// A copy of these capabilities.
    pub fn deep_clone(&self) -> (r: JsExperimentalCapabilities)
        ensures
            r@ == self@,
    {
        proof {
            use_type_invariant(self);
        }
        JsExperimentalCapabilities { inner: clone_experimental(&self.inner) }
    }

    /// The protocol's form of these capabilities.
    pub fn to_rust(&self) -> (r: ExperimentalCapabilities)
        ensures
            experimental_view(r) == self@,
            experimental_wf(self@),
    {
        proof {
            use_type_invariant(self);
        }
        clone_experimental(&self.inner)
    }

    /// These capabilities from the protocol's form: the same capabilities when
    /// their names and settings are sorted, each name once, and none otherwise.
    pub fn from_rust(core: &ExperimentalCapabilities) -> (r: JsExperimentalCapabilities)
        ensures
            r@ == experimental_kept(experimental_view(*core)),
            experimental_wf(r@),
    {
        if check_experimental_sorted(core) {
            JsExperimentalCapabilities { inner: clone_experimental(core) }
        } else {
            JsExperimentalCapabilities::default()
        }
    }
}

/// Client capabilities as JavaScript sees them, in mathematical form.
pub struct JsClientCapabilitiesView {
    pub experimental: ExperimentalTree,
    pub roots: Option<bool>,
    pub sampling: Option<JsonTree>,
}

/// The invariant of client capabilities as JavaScript sees them: experimental
/// capabilities keep theirs, and sampling settings that are an object have
/// their members sorted by name, each once.
pub open spec fn js_capabilities_wf(c: JsClientCapabilitiesView) -> bool {
    &&& experimental_wf(c.experimental)
    &&& c.sampling matches Some(t) ==> members_sorted(t)
}

/// The protocol's form of client capabilities: experimental and roots
/// capabilities are always present, and sampling settings only if they are an
/// object.
pub open spec fn capabilities_to_core(c: JsClientCapabilitiesView) -> ClientCapabilitiesView {
    ClientCapabilitiesView {
        experimental: Some(c.experimental),
        roots: Some(RootsCapabilities { list_changed: c.roots }),
        sampling: match c.sampling {
            Some(t) => if is_object(t) {
                Some(t->Object_0)
            } else {
                None
            },
            None => None,
        },
    }
}

/// Client capabilities as JavaScript sees them, from the protocol's form: absent
/// experimental capabilities, or ones that break their invariant, become none, absent roots capabilities say nothing
/// of list changes, and sampling settings become a JSON object.
pub open spec fn capabilities_from_core(c: ClientCapabilitiesView) -> JsClientCapabilitiesView {
    JsClientCapabilitiesView {
        experimental: match c.experimental {
            Some(e) => experimental_kept(e),
            None => Seq::empty(),
        },
        roots: match c.roots {
            Some(r) => r.list_changed,
            None => None,
        },
        sampling: match c.sampling {
            Some(o) => Some(JsonTree::Object(o)),
            None => None,
        },
    }
}

/// Client capabilities as JavaScript sees them.
#[derive(Debug, PartialEq)]
pub struct JsClientCapabilities {
    pub experimental: JsExperimentalCapabilities,
    pub roots: JsRootsCapabilities,
    pub sampling: Option<JsonValue>,
}

impl View for JsClientCapabilities {
    type V = JsClientCapabilitiesView;

    open spec fn view(&self) -> JsClientCapabilitiesView {
        JsClientCapabilitiesView {
            experimental: self.experimental@,
            roots: self.roots.list_changed,
            sampling: match self.sampling {
                Some(v) => Some(v@),
                None => None,
            },
        }
    }
}

impl JsClientCapabilities {
    /// Client capabilities made of their parts.
    pub fn new(
        experimental: JsExperimentalCapabilities,
        roots: JsRootsCapabilities,
        sampling: Option<JsonValue>,
    ) -> (r: JsClientCapabilities)
        ensures
            r == (JsClientCapabilities { experimental, roots, sampling }),
    {
        JsClientCapabilities { experimental, roots, sampling }
    }

    /// The protocol's form of these capabilities.
    pub fn to_rust(&self) -> (r: ClientCapabilities)
        ensures
            r@ == capabilities_to_core(self@),
            js_capabilities_wf(self@) ==> capabilities_wf(r@),
    {
        proof {
            crate::laws::capabilities_to_core_keeps_order(self@);
        }
        let sampling = match &self.sampling {
            Some(v) => v.deep_clone().into_object(),
            None => None,
        };
        let r = ClientCapabilities {
            experimental: Some(self.experimental.to_rust()),
            roots: Some(self.roots.to_rust()),
            sampling,
        };
        r
    }

    /// These capabilities from the protocol's form.
    pub fn from_rust(core: &ClientCapabilities) -> (r: JsClientCapabilities)
        ensures
            r@ == capabilities_from_core(core@),
            capabilities_wf(core@) ==> js_capabilities_wf(r@),
    {
        proof {
            crate::laws::capabilities_from_core_keeps_order(core@);
        }
        let experimental = match &core.experimental {
            Some(e) => JsExperimentalCapabilities::from_rust(e),
            None => JsExperimentalCapabilities::default(),
        };
        let roots = match &core.roots {
            Some(r) => JsRootsCapabilities::from_rust(r),
            None => JsRootsCapabilities::default(),
        };
        let sampling = match &core.sampling {
            Some(o) => {
                let copy = crate::json::clone_object(o);
                let v = JsonValue::Object(copy);
                assert(v@->Object_0 =~= crate::json::object_view(copy));
                Some(v)
            },
            None => None,
        };
        JsClientCapabilities { experimental, roots, sampling }
    }
}

} // verus!
