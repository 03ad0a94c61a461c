//! An in-memory viewer: a small archive of recorded entries, held entirely
//! in memory. It demonstrates the viewer capability and backs tests of the
//! navigation model without touching a real archive file.

use vstd::prelude::*;

use crate::_comde::CompressStats;
use crate::_comde::DecompressStats;
use crate::_comde::ViewEntry;
use crate::_comde::Viewer;
use crate::_comde::is_normalized;
use crate::_comde::is_normalized_str;
use crate::_comde::is_root;
use crate::_comde::parent_dir;
use crate::_comde::parent_of;
use crate::_comde::remove_subtree;
use crate::_comde::under;
use crate::_comde::under_path;
use crate::_error::Error;
use crate::_error::ViewError;
use crate::_utils::calculate_size;
use crate::utils::now_millis;
use crate::utils::str_eq;

verus! {

/// A viewer over an archive that lives in memory: a list of recorded
/// entries, each at an absolute normalized path.
pub struct MemViewer {
    entries: Vec<ViewEntry>,
}

impl MemViewer {
    /// An empty in-memory archive: nothing is present, and only the root
    /// can be listed.
    pub fn new() -> (r: MemViewer)
        ensures
            r.wf(),
            forall|q: Seq<char>| !(#[trigger] r.present().contains(q)),
            forall|q: Seq<char>| #[trigger] r.listable().contains(q) <==> is_root(q),
    {
        let r = MemViewer { entries: Vec::new() };
        r
    }

    /// Records a directory at the given absolute normalized path; any
    /// other path is rejected unchanged.
    pub fn add_dir(&mut self, path: &String) -> (r: Result<(), Error>)
        requires
            old(self).wf(),
        ensures
            final(self).wf(),
            r is Ok <==> (is_normalized(path@) && !is_root(path@)),
            r is Ok ==> final(self).present() == old(self).present().insert(path@)
                && final(self).listable() == old(self).listable().insert(path@),
            !(r is Ok) ==> *final(self) == *old(self),
    {
        proof {
            reveal_strlit("/");
        }
        if is_normalized_str(path.as_str()) && !str_eq(path.as_str(), "/") {
            proof {
                assert(!is_root(path@)) by {
                    if is_root(path@) {
                        assert(path@ =~= "/"@);
                    }
                }
            }
            let entry = ViewEntry {
                path: path.clone(),
                is_dir: true,
                compressed_size: 0,
                uncompressed_size: 0,
                modified_time: None,
                is_encrypted: false,
                crc32: None,
            };
            self.entries.push(entry);
            proof {
                assert(self.entries@[self.entries@.len() - 1].path@ == path@);
                assert forall|q: Seq<char>| #[trigger] self.present().contains(q) implies old(
                    self,
                ).present().contains(q) || q == path@ by {
                    let i = choose|i: int|
                        0 <= i < self.entries@.len() && (#[trigger] self.entries@[i]).path@ == q;
                    if i < old(self).entries@.len() {
                        assert(old(self).entries@[i].path@ == q);
                    }
                }
                assert forall|q: Seq<char>| old(self).present().contains(q) implies #[trigger] self
                    .present().contains(q) by {
                    let i = choose|i: int|
                        0 <= i < old(self).entries@.len() && (#[trigger] old(
                            self,
                        ).entries@[i]).path@ == q;
                    assert(self.entries@[i].path@ == q);
                }
                assert(self.present() =~= old(self).present().insert(path@));
                assert forall|q: Seq<char>| #[trigger] self.listable().contains(q) implies old(
                    self,
                ).listable().contains(q) || q == path@ by {
                    if !is_root(q) {
                        let i = choose|i: int|
                            0 <= i < self.entries@.len() && (#[trigger] self.entries@[i]).is_dir
                                && self.entries@[i].path@ == q;
                        if i < old(self).entries@.len() {
                            assert(old(self).entries@[i].is_dir && old(self).entries@[i].path@
                                == q);
                        }
                    }
                }
                assert forall|q: Seq<char>| old(self).listable().contains(q) implies #[trigger] self
                    .listable().contains(q) by {
                    if !is_root(q) {
                        let i = choose|i: int|
                            0 <= i < old(self).entries@.len() && (#[trigger] old(
                                self,
                            ).entries@[i]).is_dir && old(self).entries@[i].path@ == q;
                        assert(self.entries@[i].is_dir && self.entries@[i].path@ == q);
                    }
                }
                assert(self.listable().contains(path@));
                assert(self.listable() =~= old(self).listable().insert(path@));
            }
            Ok(())
        } else {
            proof {
                if !is_normalized(path@) {
                } else {
                    assert(path@ == "/"@);
                    assert(is_root(path@)) by {
                        assert(path@ =~= "/"@);
                    }
                }
            }
            Err(
                Error::ViewError(
                    ViewError::Other(
                        "A directory must have an absolute normalized non-root path.".to_owned(),
                    ),
                ),
            )
        }
    }
}

impl crate::_comde::ArchiveOpener for MemViewer {
    type V = MemViewer;

    fn open_view(path: &String) -> Result<crate::_comde::Archive<MemViewer>, Error> {
        crate::_comde::Archive::create(path.clone(), MemViewer::new())
    }
}

impl Viewer for MemViewer {
    closed spec fn wf(&self) -> bool {
        forall|i: int|
            0 <= i < self.entries@.len() ==> is_normalized((#[trigger] self.entries@[i]).path@)
                && !is_root(self.entries@[i].path@)
    }

    closed spec fn present(&self) -> Set<Seq<char>> {
        Set::new(
            |q: Seq<char>|
                exists|i: int|
                    0 <= i < self.entries@.len() && (#[trigger] self.entries@[i]).path@ == q,
        )
    }

    closed spec fn listable(&self) -> Set<Seq<char>> {
        Set::new(
            |q: Seq<char>|
                is_root(q) || exists|i: int|
                    0 <= i < self.entries@.len() && (#[trigger] self.entries@[i]).is_dir
                        && self.entries@[i].path@ == q,
        )
    }

    proof fn paths_normalized(&self) {
        assert forall|q: Seq<char>| #[trigger] self.listable().contains(q) implies is_normalized(
            q,
        ) by {
            if !is_root(q) {
                let i = choose|i: int|
                    0 <= i < self.entries@.len() && (#[trigger] self.entries@[i]).is_dir
                        && self.entries@[i].path@ == q;
                assert(is_normalized(self.entries@[i].path@));
            }
        }
        assert forall|q: Seq<char>| #[trigger] self.present().contains(q) implies is_normalized(
            q,
        ) by {
            let i = choose|i: int|
                0 <= i < self.entries@.len() && (#[trigger] self.entries@[i]).path@ == q;
            assert(is_normalized(self.entries@[i].path@));
        }
    }

    fn get_entries(&self, path: &String) -> (r: Result<Vec<ViewEntry>, Error>) {
        proof {
            reveal_strlit("/");
        }
        let is_rt = str_eq(path.as_str(), "/");
        let mut found = false;
        let mut i: usize = 0;
        while i < self.entries.len()
            invariant
                i <= self.entries@.len(),
                found == exists|j: int|
                    0 <= j < i && (#[trigger] self.entries@[j]).is_dir && self.entries@[j].path@
                        == path@,
            decreases self.entries@.len() - i,
        {
            let e = &self.entries[i];
            if e.is_dir && str_eq(e.path.as_str(), path.as_str()) {
                found = true;
            }
            i = i + 1;
        }
        if !(is_rt || found) {
            proof {
                assert(!self.listable().contains(path@)) by {
                    if is_root(path@) {
                        assert(path@ =~= "/"@);
                    }
                }
            }
            return Err(Error::ViewError(ViewError::NotFound));
        }
        proof {
            if is_rt {
                assert(is_root(path@)) by {
                    assert(path@ =~= "/"@);
                }
            }
            assert(self.listable().contains(path@));
        }
        let mut v: Vec<ViewEntry> = Vec::new();
        let mut k: usize = 0;
        while k < self.entries.len()
            invariant
                self.wf(),
                k <= self.entries@.len(),
                forall|t: int|
                    0 <= t < v@.len() ==> exists|j: int|
                        0 <= j < self.entries@.len() && (#[trigger] v@[t]) == self.entries@[j],
                forall|t: int|
                    0 <= t < v@.len() ==> parent_of((#[trigger] v@[t]).path@) == path@,
                forall|j: int|
                    0 <= j < k && parent_of((#[trigger] self.entries@[j]).path@) == path@
                        ==> exists|t: int| 0 <= t < v@.len() && (#[trigger] v@[t].path@)
                        == self.entries@[j].path@,
            decreases self.entries@.len() - k,
        {
            let ghost v0 = v@;
            let e = &self.entries[k];
            let par = parent_dir(e.path.as_str());
            if str_eq(par.as_str(), path.as_str()) {
                let d = e.duplicate();
                v.push(d);
                proof {
                    assert(v@[v@.len() - 1] == self.entries@[k as int]);
                }
            }
            proof {
                assert forall|j: int|
                    0 <= j < k + 1 && parent_of((#[trigger] self.entries@[j]).path@) == path@
                        implies exists|t: int|
                        0 <= t < v@.len() && (#[trigger] v@[t].path@) == self.entries@[j].path@ by {
                    if j < k {
                        let t = choose|t: int|
                            0 <= t < v0.len() && (#[trigger] v0[t].path@)
                                == self.entries@[j].path@;
                        assert(v@[t].path@ == self.entries@[j].path@);
                    } else {
                        assert(v@[v@.len() - 1].path@ == self.entries@[j].path@);
                    }
                }
            }
            k = k + 1;
        }
        proof {
            assert forall|q: Seq<char>|
                (#[trigger] self.present().contains(q)) && parent_of(q) == path@ implies exists|
                t: int,
            | 0 <= t < v@.len() && (#[trigger] v@[t].path@) == q by {
                let j = choose|j: int|
                    0 <= j < self.entries@.len() && (#[trigger] self.entries@[j]).path@ == q;
                assert(parent_of(self.entries@[j].path@) == path@);
            }
            assert forall|t: int| 0 <= t < v@.len() implies self.present().contains(
                (#[trigger] v@[t]).path@,
            ) by {
                let j = choose|j: int|
                    0 <= j < self.entries@.len() && (#[trigger] v@[t]) == self.entries@[j];
                assert(self.entries@[j].path@ == v@[t].path@);
            }
        }
        Ok(v)
    }

    fn add_entry_to(&mut self, path_from: &String, to: &String) -> (r: Result<
        CompressStats,
        Error,
    >) {
        proof {
            reveal_strlit("/");
        }
        if !is_normalized_str(to.as_str()) || str_eq(to.as_str(), "/") {
            return Err(
                Error::ViewError(
                    ViewError::Other(
                        "An entry must have an absolute normalized non-root path.".to_owned(),
                    ),
                ),
            );
        }
        proof {
            assert(!is_root(to@)) by {
                if is_root(to@) {
                    assert(to@ =~= "/"@);
                }
            }
        }
        let time_begin = now_millis();
        let size = match calculate_size(path_from) {
            Ok(n) => n,
            Err(e) => {
                return Err(e);
            },
        };
        let entry = ViewEntry {
            path: to.clone(),
            is_dir: false,
            compressed_size: size,
            uncompressed_size: size,
            modified_time: None,
            is_encrypted: false,
            crc32: None,
        };
        self.entries.push(entry);
        proof {
            assert(self.entries@[self.entries@.len() - 1].path@ == to@);
            assert forall|q: Seq<char>| #[trigger] self.present().contains(q) implies old(
                self,
            ).present().contains(q) || q == to@ by {
                let i = choose|i: int|
                    0 <= i < self.entries@.len() && (#[trigger] self.entries@[i]).path@ == q;
                if i < old(self).entries@.len() {
                    assert(old(self).entries@[i].path@ == q);
                }
            }
            assert forall|q: Seq<char>| old(self).present().contains(q) implies #[trigger] self
                .present().contains(q) by {
                let i = choose|i: int|
                    0 <= i < old(self).entries@.len() && (#[trigger] old(self).entries@[i]).path@
                        == q;
                assert(self.entries@[i].path@ == q);
            }
            assert(self.present() =~= old(self).present().insert(to@));
            assert forall|q: Seq<char>| #[trigger] self.listable().contains(q) implies old(
                self,
            ).listable().contains(q) by {
                if !is_root(q) {
                    let i = choose|i: int|
                        0 <= i < self.entries@.len() && (#[trigger] self.entries@[i]).is_dir
                            && self.entries@[i].path@ == q;
                    assert(i < old(self).entries@.len());
                    assert(old(self).entries@[i].is_dir && old(self).entries@[i].path@ == q);
                }
            }
            assert forall|q: Seq<char>| old(self).listable().contains(q) implies #[trigger] self
                .listable().contains(q) by {
                if !is_root(q) {
                    let i = choose|i: int|
                        0 <= i < old(self).entries@.len() && (#[trigger] old(
                            self,
                        ).entries@[i]).is_dir && old(self).entries@[i].path@ == q;
                    assert(self.entries@[i].is_dir && self.entries@[i].path@ == q);
                }
            }
            assert(self.listable() =~= old(self).listable());
        }
        let time_now = now_millis();
        let time_cost = if time_now >= time_begin {
            time_now - time_begin
        } else {
            0
        };
        Ok(CompressStats::new(size, size, time_cost))
    }

    fn remove_entry_at(&mut self, path_at: &String) -> (r: Result<(), Error>) {
        let mut found = false;
        let mut i: usize = 0;
        while i < self.entries.len()
            invariant
                i <= self.entries@.len(),
                found == exists|j: int|
                    0 <= j < i && (#[trigger] self.entries@[j]).path@ == path_at@,
            decreases self.entries@.len() - i,
        {
            let e = &self.entries[i];
            if str_eq(e.path.as_str(), path_at.as_str()) {
                found = true;
            }
            i = i + 1;
        }
        if !found {
            proof {
                assert(!self.present().contains(path_at@));
            }
            return Err(Error::ViewError(ViewError::NotFound));
        }
        let mut kept: Vec<ViewEntry> = Vec::new();
        let mut k: usize = 0;
        while k < self.entries.len()
            invariant
                self.wf(),
                k <= self.entries@.len(),
                forall|t: int|
                    0 <= t < kept@.len() ==> exists|j: int|
                        0 <= j < self.entries@.len() && (#[trigger] kept@[t]) == self.entries@[j],
                forall|t: int| 0 <= t < kept@.len() ==> !under((#[trigger] kept@[t]).path@, path_at@),
                forall|j: int|
                    0 <= j < k && !under((#[trigger] self.entries@[j]).path@, path_at@)
                        ==> exists|t: int| 0 <= t < kept@.len() && (#[trigger] kept@[t])
                        == self.entries@[j],
            decreases self.entries@.len() - k,
        {
            let ghost kept0 = kept@;
            let e = &self.entries[k];
            if !under_path(e.path.as_str(), path_at.as_str()) {
                let d = e.duplicate();
                kept.push(d);
                proof {
                    assert(kept@[kept@.len() - 1] == self.entries@[k as int]);
                }
            }
            proof {
                assert forall|j: int|
                    0 <= j < k + 1 && !under((#[trigger] self.entries@[j]).path@, path_at@)
                        implies exists|t: int|
                        0 <= t < kept@.len() && (#[trigger] kept@[t]) == self.entries@[j] by {
                    if j < k {
                        let t = choose|t: int|
                            0 <= t < kept0.len() && (#[trigger] kept0[t]) == self.entries@[j];
                        assert(kept@[t] == self.entries@[j]);
                    } else {
                        assert(kept@[kept@.len() - 1] == self.entries@[j]);
                    }
                }
            }
            k = k + 1;
        }
        self.entries = kept;
        proof {
            assert(self.present() =~= remove_subtree(old(self).present(), path_at@)) by {
                assert forall|q: Seq<char>| #[trigger] self.present().contains(q) implies old(
                    self,
                ).present().contains(q) && !under(q, path_at@) by {
                    let t = choose|t: int|
                        0 <= t < self.entries@.len() && (#[trigger] self.entries@[t]).path@ == q;
                    let j = choose|j: int|
                        0 <= j < old(self).entries@.len() && (#[trigger] self.entries@[t])
                            == old(self).entries@[j];
                    assert(old(self).entries@[j].path@ == q);
                }
                assert forall|q: Seq<char>|
                    old(self).present().contains(q) && !under(q, path_at@) implies #[trigger] self
                    .present().contains(q) by {
                    let j = choose|j: int|
                        0 <= j < old(self).entries@.len() && (#[trigger] old(self).entries@[j]).path@
                            == q;
                    let t = choose|t: int|
                        0 <= t < self.entries@.len() && (#[trigger] self.entries@[t]) == old(
                            self,
                        ).entries@[j];
                    assert(self.entries@[t].path@ == q);
                }
            }
            assert(self.listable() =~= remove_subtree(old(self).listable(), path_at@)) by {
                assert(!under(seq!['/'], path_at@)) by {
                    let j = choose|j: int|
                        0 <= j < old(self).entries@.len() && (#[trigger] old(self).entries@[j]).path@
                            == path_at@;
                    assert(!is_root(old(self).entries@[j].path@));
                    assert(path_at@.len() >= 2);
                }
                assert forall|q: Seq<char>| #[trigger] self.listable().contains(q) implies old(
                    self,
                ).listable().contains(q) && !under(q, path_at@) by {
                    if is_root(q) {
                        assert(q =~= seq!['/']);
                    } else {
                        let t = choose|t: int|
                            0 <= t < self.entries@.len() && (#[trigger] self.entries@[t]).is_dir
                                && self.entries@[t].path@ == q;
                        let j = choose|j: int|
                            0 <= j < old(self).entries@.len() && (#[trigger] self.entries@[t])
                                == old(self).entries@[j];
                        assert(old(self).entries@[j].path@ == q);
                        assert(old(self).entries@[j].is_dir);
                    }
                }
                assert forall|q: Seq<char>|
                    old(self).listable().contains(q) && !under(q, path_at@) implies #[trigger] self
                    .listable().contains(q) by {
                    if is_root(q) {
                    } else {
                        let j = choose|j: int|
                            0 <= j < old(self).entries@.len() && (#[trigger] old(
                                self,
                            ).entries@[j]).is_dir && old(self).entries@[j].path@ == q;
                        let t = choose|t: int|
                            0 <= t < self.entries@.len() && (#[trigger] self.entries@[t]) == old(
                                self,
                            ).entries@[j];
                        assert(self.entries@[t].path@ == q);
                        assert(self.entries@[t].is_dir);
                    }
                }
            }
        }
        Ok(())
    }

    fn decompress_file(&self, path_at: &String, to: &String) -> Result<DecompressStats, Error> {
        Err(Error::ViewError(ViewError::Unsupported))
    }
}

} // verus!
