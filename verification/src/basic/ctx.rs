//! The plugin-identity context: the marshalled answers to the host's
//! describe-yourself calls, held alive for as long as the host may read the
//! pointers written back from them.

use crate::common::string::{wide_of, WideString, WideStringArray};
use crate::ffi;
use vstd::prelude::*;

verus! {

/// The stored identity: the plugin's GUID and the encoded buffers behind
/// the title, description and author pointers.
pub struct GlobalInfoContext {
    pub guid: ffi::GUID,
    pub title: WideString,
    pub description: WideString,
    pub author: WideString,
}

/// A stored identity carries the rich record's GUID and the encodings of
/// its three texts.
pub open spec fn gic_matches(g: GlobalInfoContext, src: crate::basic::GlobalInfo) -> bool {
    &&& g.guid == src.guid
    &&& g.title@ == wide_of(src.title@)
    &&& g.description@ == wide_of(src.description@)
    &&& g.author@ == wide_of(src.author@)
}

/// One marshalled menu: the parallel GUID and label arrays the host reads,
/// sharing one lifetime.
pub struct PluginMenuItem {
    pub guids: Vec<ffi::GUID>,
    pub strings: WideStringArray,
}

/// A marshalled menu carries each entry's GUID and the encoding of its
/// label, in order.
pub open spec fn pmi_matches(p: PluginMenuItem, items: Seq<crate::basic::MenuItem>) -> bool {
    &&& p.guids@.len() == items.len()
    &&& p.strings@.len() == items.len()
    &&& forall|i: int| 0 <= i < items.len() ==> p.guids@[i] == (#[trigger] items[i]).guid
    &&& forall|i: int| 0 <= i < items.len() ==> p.strings@[i] == wide_of((#[trigger] items[i]).label@)
}

impl PluginMenuItem {
    /// Marshals one menu: every label becomes an owned buffer.
    pub fn from(menu_items: &Vec<crate::basic::MenuItem>) -> (r: PluginMenuItem)
        ensures
            pmi_matches(r, menu_items@),
    {
        let mut guids: Vec<ffi::GUID> = Vec::new();
        let mut labels: Vec<WideString> = Vec::new();
        let n = menu_items.len();
        let mut i: usize = 0;
        while i < n
            invariant
                n == menu_items@.len(),
                i <= n,
                guids@.len() == i as int,
                labels@.len() == i as int,
                forall|j: int| 0 <= j < i as int ==> guids@[j] == (#[trigger] menu_items@[j]).guid,
                forall|j: int|
                    0 <= j < i as int ==> (#[trigger] labels@[j])@ == wide_of(
                        menu_items@[j].label@,
                    ),
            decreases n - i,
        {
            guids.push(menu_items[i].guid);
            labels.push(WideString::from_str(menu_items[i].label.as_str()));
            i = i + 1;
        }
        let strings = WideStringArray::from_wide(labels);
        proof {
            assert forall|k: int| 0 <= k < menu_items@.len() implies strings@[k] == wide_of(
                (#[trigger] menu_items@[k]).label@,
            ) by {
                assert(strings@[k] == labels@[k]@);
                assert(labels@[k]@ == wide_of(menu_items@[k].label@));
            }
        }
        PluginMenuItem { guids, strings }
    }

    /// How many entries the host may read.
    pub fn count(&self) -> (r: usize)
        ensures
            r == self.guids@.len(),
    {
        self.guids.len()
    }
}

/// The stored menus and flags behind the plugin-information answer.
pub struct PluginInfoContext {
    pub flags: u64,
    pub disk_menu: PluginMenuItem,
    pub plugin_menu: PluginMenuItem,
    pub plugin_config: PluginMenuItem,
    pub command_prefix: Option<WideString>,
}

/// A stored plugin-information answer carries the rich record's flags, its
/// three menus marshalled, and the encoded command prefix where one is set.
pub open spec fn pic_matches(p: PluginInfoContext, src: crate::basic::PluginInfo) -> bool {
    &&& p.flags == src.flags
    &&& pmi_matches(p.disk_menu, src.disk_menu@)
    &&& pmi_matches(p.plugin_menu, src.plugin_menu@)
    &&& pmi_matches(p.plugin_config, src.plugin_config@)
    &&& match (p.command_prefix, src.command_prefix) {
        (Some(w), Some(s)) => w@ == wide_of(s@),
        (None, None) => true,
        _ => false,
    }
}

impl PluginInfoContext {
    /// Marshals the whole plugin-information record.
    pub fn from(src: &crate::basic::PluginInfo) -> (r: PluginInfoContext)
        ensures
            pic_matches(r, *src),
    {
        PluginInfoContext {
            flags: src.flags,
            disk_menu: PluginMenuItem::from(&src.disk_menu),
            plugin_menu: PluginMenuItem::from(&src.plugin_menu),
            plugin_config: PluginMenuItem::from(&src.plugin_config),
            command_prefix: match &src.command_prefix {
                Some(prefix) => Some(WideString::from_str(prefix.as_str())),
                None => None,
            },
        }
    }
}

/// The identity context: empty until the host's first describe call, then
/// holding the last answers.
pub struct Context {
    plugin_info: Option<PluginInfoContext>,
    global_info: Option<GlobalInfoContext>,
}

impl Context {
    pub closed spec fn spec_global_info(&self) -> Option<GlobalInfoContext> {
        self.global_info
    }

    pub closed spec fn spec_plugin_info(&self) -> Option<PluginInfoContext> {
        self.plugin_info
    }

    /// Whether the plugin has reported its identity yet.
    pub open spec fn has_global_info(&self) -> bool {
        self.spec_global_info() is Some
    }

    /// The reported GUID; meaningful only once the identity is in.
    pub open spec fn global_guid(&self) -> ffi::GUID
        recommends
            self.has_global_info(),
    {
        self.spec_global_info()->Some_0.guid
    }

    /// A fresh, empty context.
    pub fn new() -> (r: Context)
        ensures
            r.spec_global_info() is None,
            r.spec_plugin_info() is None,
    {
        Context { plugin_info: None, global_info: None }
    }

    /// The plugin's GUID. The identity must be in: the host asks nothing of
    /// a plugin it has not described yet.
    pub fn plugin_guid(&self) -> (r: ffi::GUID)
        requires
            self.has_global_info(),
        ensures
            r == self.global_guid(),
    {
        match &self.global_info {
            Some(g) => g.guid,
            None => {
                proof {
                    assert(false);
                }
                ffi::GUID::default_guid()
            },
        }
    }

    /// Installs the identity answer, encoding every text into an owned
    /// buffer the host's pointers stay valid into.
    pub fn install_global_info(&mut self, src: &crate::basic::GlobalInfo)
        ensures
            final(self).spec_global_info() matches Some(g) && gic_matches(g, *src),
            final(self).spec_plugin_info() == old(self).spec_plugin_info(),
            final(self).has_global_info(),
    {
        self.global_info = Some(
            GlobalInfoContext {
                guid: src.guid,
                title: WideString::from_str(src.title.as_str()),
                description: WideString::from_str(src.description.as_str()),
                author: WideString::from_str(src.author.as_str()),
            },
        );
    }

    /// Installs the plugin-information answer, marshalling the menus.
    pub fn install_plugin_info(&mut self, src: &crate::basic::PluginInfo)
        ensures
            final(self).spec_plugin_info() matches Some(p) && pic_matches(p, *src),
            final(self).spec_global_info() == old(self).spec_global_info(),
    {
        self.plugin_info = Some(PluginInfoContext::from(src));
    }

    /// The stored identity, for the shim to write pointers from.
    pub fn global_info(&self) -> (r: Option<&GlobalInfoContext>)
        ensures
            match r {
                Some(g) => self.spec_global_info() == Some(*g),
                None => self.spec_global_info() is None,
            },
    {
        self.global_info.as_ref()
    }

    /// The stored plugin information, for the shim to write pointers from.
    pub fn plugin_info(&self) -> (r: Option<&PluginInfoContext>)
        ensures
            match r {
                Some(p) => self.spec_plugin_info() == Some(*p),
                None => self.spec_plugin_info() is None,
            },
    {
        self.plugin_info.as_ref()
    }
}

impl Default for Context {
    /// The same empty context `new` builds.
    fn default() -> (r: Context)
        ensures
            r.spec_global_info() is None,
            r.spec_plugin_info() is None,
    {
        Context::new()
    }
}

} // verus!
