//! The object catalog: a one-shot snapshot of every object the daemon
//! exposes, with the interfaces and property values each one implements.

use crate::object_path::ObjectPath;
use crate::text::str_equal;
use crate::value::{PropValue, PropertyMap};
use vstd::prelude::*;

verus! {

/// One interface of an object, with its property values at snapshot time.
#[derive(Debug)]
pub struct InterfaceSnapshot {
    pub name: String,
    pub properties: PropertyMap,
}

/// One object of the snapshot.
#[derive(Debug)]
pub struct ObjectSnapshot {
    pub path: ObjectPath,
    pub interfaces: Vec<InterfaceSnapshot>,
}

pub struct ObjectSnapshotView {
    pub path: Seq<char>,
    pub interfaces: Seq<(Seq<char>, Seq<(String, PropValue)>)>,
}

impl View for InterfaceSnapshot {
    type V = (Seq<char>, Seq<(String, PropValue)>);

    open spec fn view(&self) -> (Seq<char>, Seq<(String, PropValue)>) {
        (self.name@, self.properties@)
    }
}

impl View for ObjectSnapshot {
    type V = ObjectSnapshotView;

    open spec fn view(&self) -> ObjectSnapshotView {
        ObjectSnapshotView {
            path: self.path@,
            interfaces: self.interfaces@.map_values(|i: InterfaceSnapshot| i@),
        }
    }
}

/// The snapshot: objects in the order received, each path at most once.
#[derive(Debug)]
pub struct Catalog {
    objects: Vec<ObjectSnapshot>,
}

impl View for Catalog {
    type V = Seq<ObjectSnapshotView>;

    closed spec fn view(&self) -> Seq<ObjectSnapshotView> {
        self.objects@.map_values(|o: ObjectSnapshot| o@)
    }
}

/// The object implements the interface named `iface`.
pub open spec fn implements(o: ObjectSnapshotView, iface: Seq<char>) -> bool {
    exists|j: int| 0 <= j < o.interfaces.len() && (#[trigger] o.interfaces[j]).0 == iface
}

pub open spec fn contains_path(c: Seq<ObjectSnapshotView>, path: Seq<char>) -> bool {
    exists|i: int| 0 <= i < c.len() && (#[trigger] c[i]).path == path
}

/// Among the first `n` objects, one at `path` implements `iface`.
pub open spec fn implemented_at(c: Seq<ObjectSnapshotView>, n: int, path: Seq<char>, iface: Seq<char>) -> bool {
    exists|i: int| 0 <= i < n && (#[trigger] c[i]).path == path && implements(c[i], iface)
}

/// The paths of the objects that implement `iface`, in snapshot order.
pub open spec fn paths_with_interface(c: Seq<ObjectSnapshotView>, iface: Seq<char>) -> Seq<Seq<char>>
    decreases c.len(),
{
    if c.len() == 0 {
        Seq::empty()
    } else {
        let rest = paths_with_interface(c.drop_last(), iface);
        if implements(c.last(), iface) {
            rest.push(c.last().path)
        } else {
            rest
        }
    }
}

fn implements_interface(o: &ObjectSnapshot, iface: &str) -> (r: bool)
    ensures
        r == implements(o@, iface@),
{
    let n = o.interfaces.len();
    let mut j: usize = 0;
    while j < n
        invariant
            n == o.interfaces@.len(),
            j <= n,
            forall|k: int| 0 <= k < j ==> (#[trigger] o@.interfaces[k]).0 != iface@,
        decreases n - j,
    {
        if str_equal(o.interfaces[j].name.as_str(), iface) {
            proof {
                assert(o@.interfaces[j as int].0 == iface@);
            }
            return true;
        }
        j = j + 1;
    }
    false
}

impl Catalog {
    /// Each path occurs at most once.
    pub open spec fn wf(&self) -> bool {
        forall|i: int, j: int| 0 <= i < j < self@.len() ==> self@[i].path != self@[j].path
    }

    pub fn new() -> (r: Catalog)
        ensures
            r.wf(),
            r@.len() == 0,
    {
        let r = Catalog { objects: Vec::new() };
        proof {
            assert(r@ =~= Seq::<ObjectSnapshotView>::empty());
        }
        r
    }

    /// Adds an object to the snapshot, unless its path is already there; in
    /// that case the object is handed back.
    pub fn add(&mut self, object: ObjectSnapshot) -> (r: Option<ObjectSnapshot>)
        requires
            old(self).wf(),
        ensures
            final(self).wf(),
            contains_path(old(self)@, object@.path) ==> r == Some(object) && final(self)@ == old(self)@,
            !contains_path(old(self)@, object@.path) ==> r is None && final(self)@ == old(self)@.push(
                object@,
            ),
    {
        let n = self.objects.len();
        let mut i: usize = 0;
        while i < n
            invariant
                n == self.objects@.len(),
                i <= n,
                self.wf(),
                forall|k: int| 0 <= k < i ==> (#[trigger] self.objects@[k]).path@ != object.path@,
            decreases n - i,
        {
            if self.objects[i].path.same_as(&object.path) {
                proof {
                    assert(self@[i as int].path == object@.path);
                }
                return Some(object);
            }
            i = i + 1;
        }
        proof {
            assert forall|k: int| 0 <= k < self@.len() implies (#[trigger] self@[k]).path != object@.path by {
                assert(self@[k].path == self.objects@[k].path@);
            }
        }
        let ghost before = self.objects@;
        let ghost pushed = object@;
        self.objects.push(object);
        proof {
            assert(self@ =~= before.map_values(|o: ObjectSnapshot| o@).push(pushed));
        }
        None
    }

    /// The paths of all objects that implement the interface named `iface`,
    /// in snapshot order. Every returned path belongs to an object that
    /// implements it, and every object that implements it is returned.
    pub fn objects_of_interface(&self, iface: &str) -> (r: Vec<ObjectPath>)
        requires
            self.wf(),
        ensures
            r@.map_values(|p: ObjectPath| p@) == paths_with_interface(self@, iface@),
            forall|k: int| 0 <= k < r@.len() ==> implemented_at(self@, self@.len() as int, (#[trigger] r@[k])@, iface@),
            forall|k: int, i: int|
                0 <= k < r@.len() && 0 <= i < self@.len() && (#[trigger] self@[i]).path == (#[trigger] r@[k])@
                    ==> implements(self@[i], iface@),
            forall|i: int| 0 <= i < self@.len() && implements(#[trigger] self@[i], iface@) ==> exists|k: int|
                0 <= k < r@.len() && (#[trigger] r@[k])@ == self@[i].path,
    {
        let mut out: Vec<ObjectPath> = Vec::new();
        let n = self.objects.len();
        let mut i: usize = 0;
        while i < n
            invariant
                n == self@.len(),
                n == self.objects@.len(),
                i <= n,
                forall|a: int, b: int| 0 <= a < b < n ==> self@[a].path != self@[b].path,
                out@.map_values(|p: ObjectPath| p@) == paths_with_interface(self@.subrange(0, i as int), iface@),
                forall|k: int| 0 <= k < out@.len() ==> implemented_at(self@, i as int, (#[trigger] out@[k])@, iface@),
                forall|x: int| 0 <= x < i && implements(#[trigger] self@[x], iface@) ==> exists|k: int|
                    0 <= k < out@.len() && (#[trigger] out@[k])@ == self@[x].path,
            decreases n - i,
        {
            proof {
                assert(self@.subrange(0, i + 1).drop_last() =~= self@.subrange(0, i as int));
                assert(self@.subrange(0, i + 1).last() == self@[i as int]);
            }
            if implements_interface(&self.objects[i], iface) {
                let ghost before = out@;
                out.push(self.objects[i].path.duplicate());
                proof {
                    assert(out@.map_values(|p: ObjectPath| p@) =~= before.map_values(|p: ObjectPath| p@).push(
                        self@[i as int].path,
                    ));
                    assert forall|k: int| 0 <= k < out@.len() implies implemented_at(self@, i + 1, (#[trigger] out@[k])@, iface@) by {
                        if k == before.len() {
                            assert(self@[i as int].path == out@[k]@);
                        } else {
                            assert(out@[k] == before[k]);
                            assert(implemented_at(self@, i as int, before[k]@, iface@));
                        }
                    }
                    assert forall|x: int| 0 <= x < i + 1 && implements(#[trigger] self@[x], iface@) implies exists|k: int|
                        0 <= k < out@.len() && (#[trigger] out@[k])@ == self@[x].path by {
                        if x == i {
                            assert(out@[before.len() as int]@ == self@[x].path);
                        } else {
                            let k = choose|k: int| 0 <= k < before.len() && (#[trigger] before[k])@ == self@[x].path;
                            assert(out@[k] == before[k]);
                        }
                    }
                }
            }
            i = i + 1;
        }
        proof {
            assert(self@.subrange(0, n as int) =~= self@);
            assert forall|k: int, x: int|
                0 <= k < out@.len() && 0 <= x < self@.len() && (#[trigger] self@[x]).path == (#[trigger] out@[k])@
                    implies implements(self@[x], iface@) by {
                assert(implemented_at(self@, n as int, out@[k]@, iface@));
                let y = choose|y: int| 0 <= y < n && (#[trigger] self@[y]).path == out@[k]@ && implements(self@[y], iface@);
                if y != x {
                    if y < x {
                        assert(self@[y].path != self@[x].path);
                    } else {
                        assert(self@[x].path != self@[y].path);
                    }
                }
            }
        }
        out
    }
}

} // verus!
