//! The registry of scanners.

use crate::entities::{Scanner, ScannerStatus, ScannerStatusView, ScannerView, SystemType};
use crate::keyed::{
    distinct, holds, item_at, lemma_absent, lemma_place, lemma_replaced_distinct,
    lemma_upsert_distinct, lemma_without_distinct, replaced, upsert, upsert_all, without, Keyed,
    Text,
};
use vstd::prelude::*;

verus! {

impl Keyed for ScannerView {
    open spec fn key(self) -> Text {
        self.id
    }
}

/// The views of a sequence of scanners.
pub open spec fn scanner_views(devices: Seq<Scanner>) -> Seq<ScannerView> {
    Seq::new(devices.len(), |i: int| devices[i]@)
}

/// The scanners that belong to one system, in their order.
pub open spec fn of_system(scanners: Seq<ScannerView>, system: SystemType) -> Seq<ScannerView>
    decreases scanners.len(),
{
    if scanners.len() == 0 {
        scanners
    } else if scanners.last().system_type == system {
        of_system(scanners.drop_last(), system).push(scanners.last())
    } else {
        of_system(scanners.drop_last(), system)
    }
}

/// How many scanners are available.
pub open spec fn available_count(scanners: Seq<ScannerView>) -> nat
    decreases scanners.len(),
{
    if scanners.len() == 0 {
        0
    } else if scanners.last().status is Available {
        available_count(scanners.drop_last()) + 1
    } else {
        available_count(scanners.drop_last())
    }
}

/// No more scanners are available than there are.
pub proof fn lemma_available_count(scanners: Seq<ScannerView>)
    ensures
        available_count(scanners) <= scanners.len(),
    decreases scanners.len(),
{
    if scanners.len() > 0 {
        lemma_available_count(scanners.drop_last());
    }
}

/// The scanners with the status of one of them changed; unchanged where no
/// scanner has the identifier.
pub open spec fn with_status(scanners: Seq<ScannerView>, id: Text, status: ScannerStatusView) -> Seq<
    ScannerView,
> {
    replaced(scanners, id, item_at(scanners, id).with_status(status))
}

/// A change of status keeps the scanners distinct and touches the one
/// scanner only.
pub proof fn lemma_with_status_distinct(scanners: Seq<ScannerView>, id: Text, status: ScannerStatusView)
    requires
        distinct(scanners),
    ensures
        distinct(with_status(scanners, id, status)),
        with_status(scanners, id, status).len() == scanners.len(),
        holds(scanners, id) ==> item_at(with_status(scanners, id, status), id) == item_at(
            scanners,
            id,
        ).with_status(status),
{
    if holds(scanners, id) {
        crate::keyed::lemma_held(scanners, id);
        lemma_replaced_distinct(scanners, id, item_at(scanners, id).with_status(status));
    }
}

/// All scanners that the service knows, each under its own identifier.
pub struct DeviceRegistry {
    devices: Vec<Scanner>,
}

impl View for DeviceRegistry {
    type V = Seq<ScannerView>;

    closed spec fn view(&self) -> Seq<ScannerView> {
        scanner_views(self.devices@)
    }
}

impl DeviceRegistry {
    /// No two scanners share an identifier.
    pub open spec fn wf(&self) -> bool {
        distinct(self@)
    }

    pub fn new() -> (registry: Self)
        ensures
            registry@ == Seq::<ScannerView>::empty(),
            registry.wf(),
    {
        let registry = DeviceRegistry { devices: Vec::new() };
        assert(registry@ =~= Seq::<ScannerView>::empty());
        registry
    }

    pub fn len(&self) -> (n: usize)
        ensures
            n == self@.len(),
    {
        self.devices.len()
    }

    /// The first place where a scanner has the identifier.
    fn position(&self, id: &str) -> (found: Option<usize>)
        ensures
            match found {
                Some(i) => i < self@.len() && self@[i as int].id == id@,
                None => !holds(self@, id@),
            },
    {
        let wanted = id.to_owned();
        let mut i: usize = 0;
        while i < self.devices.len()
            invariant
                i <= self.devices.len(),
                wanted@ == id@,
                forall|k: int| 0 <= k < i ==> (#[trigger] self@[k]).key() != id@,
            decreases self.devices.len() - i,
        {
            if self.devices[i].id == wanted {
                assert(self@[i as int].id == id@);
                return Some(i);
            }
            assert(self@[i as int].key() != id@);
            i = i + 1;
        }
        proof {
            lemma_absent(self@, id@);
        }
        None
    }

    pub fn contains(&self, id: &str) -> (found: bool)
        ensures
            found == holds(self@, id@),
    {
        let at = self.position(id);
        proof {
            if let Some(i) = at {
                assert(crate::keyed::keys(self@)[i as int] == id@);
            }
        }
        at.is_some()
    }

    /// A look at the scanner with the identifier, or `None` where there is
    /// none.
    pub fn find(&self, id: &str) -> (found: Option<&Scanner>)
        requires
            self.wf(),
        ensures
            match found {
                Some(scanner) => holds(self@, id@) && scanner@ == item_at(self@, id@),
                None => !holds(self@, id@),
            },
    {
        match self.position(id) {
            Some(i) => {
                proof {
                    lemma_place(self@, i as int);
                }
                Some(&self.devices[i])
            },
            None => None,
        }
    }

    /// A copy of the scanner with the identifier, or `None` where there is
    /// none.
    pub fn get(&self, id: &str) -> (found: Option<Scanner>)
        requires
            self.wf(),
        ensures
            match found {
                Some(scanner) => holds(self@, id@) && scanner@ == item_at(self@, id@),
                None => !holds(self@, id@),
            },
    {
        match self.find(id) {
            Some(scanner) => Some(scanner.clone()),
            None => None,
        }
    }

    /// The scanner at a place in the listing order, or `None` past the end.
    pub fn peek(&self, index: usize) -> (found: Option<&Scanner>)
        ensures
            match found {
                Some(scanner) => index < self@.len() && scanner@ == self@[index as int],
                None => index >= self@.len(),
            },
    {
        if index < self.devices.len() {
            Some(&self.devices[index])
        } else {
            None
        }
    }

    /// All scanners, in the order in which their identifiers came in.
    pub fn list(&self) -> (all: Vec<Scanner>)
        ensures
            scanner_views(all@) == self@,
    {
        let mut all: Vec<Scanner> = Vec::new();
        let mut i: usize = 0;
        while i < self.devices.len()
            invariant
                i <= self.devices.len(),
                all@.len() == i,
                scanner_views(all@) == self@.take(i as int),
            decreases self.devices.len() - i,
        {
            let ghost before = all@;
            all.push(self.devices[i].clone());
            i = i + 1;
            assert forall|k: int| 0 <= k < i implies scanner_views(all@)[k] == self@[k] by {
                if k < i - 1 {
                    assert(scanner_views(before)[k] == self@.take(i - 1)[k]);
                }
            }
            assert(scanner_views(all@) =~= self@.take(i as int));
        }
        assert(self@.take(self.devices.len() as int) =~= self@);
        all
    }

    /// The scanners of one system, in the listing order.
    pub fn list_by_system(&self, system: SystemType) -> (some: Vec<Scanner>)
        ensures
            scanner_views(some@) == of_system(self@, system),
    {
        let mut some: Vec<Scanner> = Vec::new();
        let mut i: usize = 0;
        while i < self.devices.len()
            invariant
                i <= self.devices.len(),
                scanner_views(some@) == of_system(self@.take(i as int), system),
            decreases self.devices.len() - i,
        {
            assert(self@.take(i + 1).drop_last() =~= self@.take(i as int));
            if self.devices[i].system_type == system {
                some.push(self.devices[i].clone());
            }
            i = i + 1;
            assert(scanner_views(some@) =~= of_system(self@.take(i as int), system));
        }
        assert(self@.take(self.devices.len() as int) =~= self@);
        some
    }

    /// How many scanners are available.
    pub fn count_available(&self) -> (n: usize)
        ensures
            n == available_count(self@),
            n <= self@.len(),
    {
        let mut n: usize = 0;
        let mut i: usize = 0;
        while i < self.devices.len()
            invariant
                i <= self.devices.len(),
                n <= i,
                n == available_count(self@.take(i as int)),
            decreases self.devices.len() - i,
        {
            assert(self@.take(i + 1).drop_last() =~= self@.take(i as int));
            if self.devices[i].is_available() {
                n = n + 1;
            }
            i = i + 1;
        }
        assert(self@.take(self.devices.len() as int) =~= self@);
        n
    }

    /// How many scanners belong to one system.
    pub fn count_by_system(&self, system: SystemType) -> (n: usize)
        ensures
            n == of_system(self@, system).len(),
    {
        let mut n: usize = 0;
        let mut i: usize = 0;
        while i < self.devices.len()
            invariant
                i <= self.devices.len(),
                n <= i,
                n == of_system(self@.take(i as int), system).len(),
            decreases self.devices.len() - i,
        {
            assert(self@.take(i + 1).drop_last() =~= self@.take(i as int));
            if self.devices[i].system_type == system {
                n = n + 1;
            }
            i = i + 1;
        }
        assert(self@.take(self.devices.len() as int) =~= self@);
        n
    }

    /// Puts a scanner in: in the place of the one with its identifier, or at
    /// the end.
    pub fn upsert(&mut self, device: Scanner)
        requires
            old(self).wf(),
        ensures
            final(self)@ == upsert(old(self)@, device@),
            final(self).wf(),
    {
        proof {
            lemma_upsert_distinct(self@, device@);
        }
        let ghost before = self@;
        match self.position(device.id.as_str()) {
            Some(i) => {
                proof {
                    lemma_place(before, i as int);
                }
                self.devices.set(i, device);
                assert(self@ =~= before.update(i as int, device@));
            },
            None => {
                self.devices.push(device);
                assert(self@ =~= before.push(device@));
            },
        }
    }

    /// Drops every scanner and puts the given ones in, first to last, in one
    /// step.
    pub fn replace_all(&mut self, devices: &Vec<Scanner>)
        ensures
            final(self)@ == upsert_all(Seq::<ScannerView>::empty(), scanner_views(devices@)),
            final(self).wf(),
    {
        let mut fresh = DeviceRegistry::new();
        let ghost given = scanner_views(devices@);
        let mut i: usize = 0;
        while i < devices.len()
            invariant
                i <= devices.len(),
                given == scanner_views(devices@),
                fresh.wf(),
                fresh@ == upsert_all(Seq::<ScannerView>::empty(), given.take(i as int)),
            decreases devices.len() - i,
        {
            assert(given.take(i + 1).drop_last() =~= given.take(i as int));
            assert(given.take(i + 1).last() == devices@[i as int]@);
            fresh.upsert(devices[i].clone());
            i = i + 1;
        }
        assert(given.take(devices.len() as int) =~= given);
        self.devices = fresh.devices;
    }

    /// Takes the scanner with the identifier out and hands it back; `None`,
    /// and nothing changed, where there is none.
    pub fn remove(&mut self, id: &str) -> (removed: Option<Scanner>)
        requires
            old(self).wf(),
        ensures
            final(self)@ == without(old(self)@, id@),
            final(self).wf(),
            match removed {
                Some(scanner) => holds(old(self)@, id@) && scanner@ == item_at(old(self)@, id@),
                None => !holds(old(self)@, id@),
            },
    {
        proof {
            lemma_without_distinct(self@, id@);
        }
        let ghost before = self@;
        match self.position(id) {
            Some(i) => {
                proof {
                    lemma_place(before, i as int);
                }
                let scanner = self.devices.remove(i);
                assert(self@ =~= before.remove(i as int));
                Some(scanner)
            },
            None => None,
        }
    }

    /// Sets the status of the scanner with the identifier; `false`, and
    /// nothing changed, where there is none.
    pub fn set_status(&mut self, id: &str, status: ScannerStatus) -> (found: bool)
        requires
            old(self).wf(),
        ensures
            found == holds(old(self)@, id@),
            final(self)@ == with_status(old(self)@, id@, status@),
            final(self).wf(),
    {
        proof {
            lemma_with_status_distinct(self@, id@, status@);
        }
        let ghost before = self@;
        match self.position(id) {
            Some(i) => {
                proof {
                    lemma_place(before, i as int);
                }
                let mut scanner = self.devices.remove(i);
                scanner.status = status;
                self.devices.insert(i, scanner);
                assert(self@ =~= before.update(i as int, before[i as int].with_status(status@)));
                true
            },
            None => false,
        }
    }
}

} // verus!
