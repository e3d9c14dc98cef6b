//! A record describing a recently used resource, and its native form: five
//! NUL-terminated strings, a NULL-terminated array of NUL-terminated strings, and
//! a flag. The native form owns all of its buffers, so whoever holds it for the
//! duration of the call that reads it cannot see one freed.
use vstd::prelude::*;
use vstd::utf8::encode_utf8;

use crate::translate::{bool_to_glib, c_buffer_of, flag_of, to_c_buffer, GBoolean};

verus! {

/// What is recorded about one use of a resource.
pub struct RecentData {
    pub display_name: String,
    pub description: String,
    pub mime_type: String,
    pub app_name: String,
    pub app_exec: String,
    pub groups: Vec<String>,
    pub is_private: bool,
}

/// The native form of a `RecentData`. Each string is a NUL-terminated buffer;
/// `groups` is the array of group strings, `None` standing for its terminating
/// NULL pointer.
pub struct NativeRecentData {
    pub display_name: Vec<u8>,
    pub description: Vec<u8>,
    pub mime_type: Vec<u8>,
    pub app_name: Vec<u8>,
    pub app_exec: Vec<u8>,
    pub groups: Vec<Option<Vec<u8>>>,
    pub is_private: GBoolean,
}

/// Whether `n` holds the groups `gs`: one NUL-terminated copy of each, in order,
/// then the terminating NULL.
pub open spec fn group_array_of(gs: Seq<String>, n: Seq<Option<Vec<u8>>>) -> bool {
    &&& n.len() == gs.len() + 1
    &&& n[gs.len() as int] is None
    &&& forall|i: int|
        0 <= i < gs.len() ==> (#[trigger] n[i]) is Some && n[i]->Some_0@ == c_buffer_of(gs[i]@)
}

/// Whether `n` is the native form of `d`.
pub open spec fn marshals(d: RecentData, n: NativeRecentData) -> bool {
    &&& n.display_name@ == c_buffer_of(d.display_name@)
    &&& n.description@ == c_buffer_of(d.description@)
    &&& n.mime_type@ == c_buffer_of(d.mime_type@)
    &&& n.app_name@ == c_buffer_of(d.app_name@)
    &&& n.app_exec@ == c_buffer_of(d.app_exec@)
    &&& group_array_of(d.groups@, n.groups@)
    &&& n.is_private == flag_of(d.is_private)
}

impl RecentData {
    /// A record with the given fields.
    pub fn new(
        display_name: String,
        description: String,
        mime_type: String,
        app_name: String,
        app_exec: String,
        groups: Vec<String>,
        is_private: bool,
    ) -> (r: RecentData)
        ensures
            r.display_name@ == display_name@,
            r.description@ == description@,
            r.mime_type@ == mime_type@,
            r.app_name@ == app_name@,
            r.app_exec@ == app_exec@,
            r.groups@ == groups@,
            r.is_private == is_private,
    {
        RecentData { display_name, description, mime_type, app_name, app_exec, groups, is_private }
    }

    /// The native form of this record, with fresh buffers for every string and for
    /// the group array.
    pub fn to_glib_none(&self) -> (r: NativeRecentData)
        ensures
            marshals(*self, r),
    {
        let mut groups: Vec<Option<Vec<u8>>> = Vec::new();
        let mut i: usize = 0;
        while i < self.groups.len()
            invariant
                0 <= i <= self.groups@.len(),
                groups@.len() == i,
                forall|j: int|
                    0 <= j < i ==> (#[trigger] groups@[j]) is Some && groups@[j]->Some_0@
                        == c_buffer_of(self.groups@[j]@),
            decreases self.groups@.len() - i,
        {
            groups.push(Some(to_c_buffer(self.groups[i].as_str())));
            i = i + 1;
        }
        groups.push(None);
        NativeRecentData {
            display_name: to_c_buffer(self.display_name.as_str()),
            description: to_c_buffer(self.description.as_str()),
            mime_type: to_c_buffer(self.mime_type.as_str()),
            app_name: to_c_buffer(self.app_name.as_str()),
            app_exec: to_c_buffer(self.app_exec.as_str()),
            groups,
            is_private: bool_to_glib(self.is_private),
        }
    }
}

/// The group array of a record with N groups has exactly N + 1 pointers: the last
/// is NULL, and each of the others points at a buffer that ends in a NUL and
/// before it holds the UTF-8 bytes of the group at the same position.
pub proof fn lemma_group_array_terminated(d: RecentData, n: NativeRecentData)
    requires
        marshals(d, n),
    ensures
        n.groups@.len() == d.groups@.len() + 1,
        n.groups@.last() is None,
        forall|i: int|
            0 <= i < d.groups@.len() ==> {
                &&& (#[trigger] n.groups@[i]) is Some
                &&& n.groups@[i]->Some_0@.last() == 0u8
                &&& n.groups@[i]->Some_0@.drop_last() == encode_utf8(d.groups@[i]@)
            },
{
    assert forall|i: int| 0 <= i < d.groups@.len() implies {
        &&& (#[trigger] n.groups@[i]) is Some
        &&& n.groups@[i]->Some_0@.last() == 0u8
        &&& n.groups@[i]->Some_0@.drop_last() == encode_utf8(d.groups@[i]@)
    } by {
        assert(n.groups@[i]->Some_0@.drop_last() =~= encode_utf8(d.groups@[i]@));
    }
}

} // verus!
