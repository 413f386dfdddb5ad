//! Arrays of lane-use control signals, and their locks.

use crate::html::{escape, escaped};
use crate::text::text_opt;
use vstd::prelude::*;
use vstd::string::StringExecFns;

verus! {

/// LCS locks
#[derive(Debug)]
pub struct LcsLock {
    pub id: u32,
    pub description: String,
}

/// What a lock says.
pub struct LcsLockView {
    pub id: u32,
    pub description: Seq<char>,
}

impl View for LcsLock {
    type V = LcsLockView;

    open spec fn view(&self) -> LcsLockView {
        LcsLockView { id: self.id, description: self.description@ }
    }
}

/// LCS Array
#[derive(Debug, PartialEq, Eq)]
pub struct LcsArray {
    pub name: String,
    pub notes: Option<String>,
    pub lcs_lock: Option<u32>,
    // secondary attributes
    pub shift: Option<u32>,
}

/// What an array record says.
pub struct LcsArrayView {
    pub name: Seq<char>,
    pub notes: Option<Seq<char>>,
    pub lcs_lock: Option<u32>,
    pub shift: Option<u32>,
}

impl View for LcsArray {
    type V = LcsArrayView;

    open spec fn view(&self) -> LcsArrayView {
        LcsArrayView {
            name: self.name@,
            notes: text_opt(self.notes),
            lcs_lock: self.lcs_lock,
            shift: self.shift,
        }
    }
}

/// Ancillary LCS array data
#[derive(Debug)]
pub struct LcsArrayAnc {
    pub locks: Option<Vec<LcsLock>>,
}

/// What a list of locks says.
pub open spec fn lock_views(locks: Seq<LcsLock>) -> Seq<LcsLockView> {
    locks.map_values(|l: LcsLock| l@)
}

impl View for LcsArrayAnc {
    type V = Option<Seq<LcsLockView>>;

    open spec fn view(&self) -> Option<Seq<LcsLockView>> {
        match self.locks {
            Some(locks) => Some(lock_views(locks@)),
            None => None,
        }
    }
}

/// The description of the first lock with an id; empty where no lock has
/// it.
pub open spec fn description_of(locks: Seq<LcsLockView>, id: u32) -> Seq<char>
    decreases locks.len(),
{
    if locks.len() == 0 {
        Seq::empty()
    } else if locks[0].id == id {
        locks[0].description
    } else {
        description_of(locks.drop_first(), id)
    }
}

/// The description of the lock of an array; empty where the array has no
/// lock or the locks are not at hand.
pub open spec fn lock_of(anc: Option<Seq<LcsLockView>>, pri: LcsArrayView) -> Seq<char> {
    match (pri.lcs_lock, anc) {
        (Some(id), Some(locks)) => description_of(locks, id),
        _ => Seq::empty(),
    }
}

/// The compact card of an array: its name, made safe for HTML, and the
/// description of its lock.
pub open spec fn compact_html(pri: LcsArrayView, anc: Option<Seq<LcsLockView>>) -> Seq<char> {
    "<div class='title row'>\
              <span>"@
        + escaped(pri.name) + "</span>\
              <span>"@ + lock_of(anc, pri)
        + "</span>\
            </div>"@
}

/// The control card of an array: below its title, the description of its
/// lock.
pub open spec fn control_html(
    title: Seq<char>,
    pri: LcsArrayView,
    anc: Option<Seq<LcsLockView>>,
) -> Seq<char> {
    title + "<div class='row'>\
              <span class='info'>"@
        + lock_of(anc, pri) + "</span>\
            </div>"@
}

impl LcsArrayAnc {
    /// Lock data with nothing fetched yet.
    pub fn new() -> (r: LcsArrayAnc)
        ensures
            r@ is None,
    {
        LcsArrayAnc { locks: None }
    }

    /// Get lock description
    pub fn lock(&self, pri: &LcsArray) -> (r: &str)
        ensures
            r@ == lock_of(self@, pri@),
    {
        if let (Some(lcs_lock), Some(locks)) = (pri.lcs_lock, &self.locks) {
            let ghost all = lock_views(locks@);
            let mut i: usize = 0;
            proof {
                assert(all.skip(0) =~= all);
            }
            while i < locks.len()
                invariant
                    i <= locks@.len(),
                    all == lock_views(locks@),
                    lock_of(self@, pri@) == description_of(all, lcs_lock),
                    description_of(all, lcs_lock) == description_of(all.skip(i as int), lcs_lock),
                decreases locks@.len() - i,
            {
                proof {
                    assert(all.skip(i as int).len() > 0);
                    assert(all.skip(i as int)[0] == locks@[i as int]@);
                    assert(all.skip(i as int).drop_first() =~= all.skip(i + 1));
                }
                if lcs_lock == locks[i].id {
                    proof {
                        assert(description_of(all.skip(i as int), lcs_lock) == all.skip(
                            i as int,
                        )[0].description);
                    }
                    return locks[i].description.as_str();
                }
                i += 1;
            }
            proof {
                assert(all.skip(i as int).len() == 0);
            }
        }
        proof {
            reveal_strlit("");
            assert(""@ =~= Seq::<char>::empty());
        }
        ""
    }
}

impl LcsArray {
    /// Get the name
    pub fn name(&self) -> (r: &str)
        ensures
            r@ == self@.name,
    {
        self.name.as_str()
    }

    /// Set the name
    pub fn with_name(self, name: &str) -> (r: LcsArray)
        ensures
            r@ == (LcsArrayView { name: name@, ..self@ }),
    {
        let mut array = self;
        array.name = name.to_owned();
        array
    }

    /// Convert to Compact HTML
    pub fn to_html_compact(&self, anc: &LcsArrayAnc) -> (r: String)
        ensures
            r@ == compact_html(self@, anc@),
    {
        let name = escape(self.name());
        let lock = anc.lock(self);
        let mut html = String::from_str(
            "<div class='title row'>\
              <span>",
        );
        html.append(name.as_str());
        html.append(
            "</span>\
              <span>",
        );
        html.append(lock);
        html.append(
            "</span>\
            </div>",
        );
        html
    }

    /// Convert to Control HTML, below the title of the card
    pub fn to_html_control(&self, title: &str, anc: &LcsArrayAnc) -> (r: String)
        ensures
            r@ == control_html(title@, self@, anc@),
    {
        let lock = anc.lock(self);
        let mut html = String::from_str(title);
        html.append(
            "<div class='row'>\
              <span class='info'>",
        );
        html.append(lock);
        html.append(
            "</span>\
            </div>",
        );
        html
    }
}

} // verus!
