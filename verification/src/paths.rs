//! Locations inside the application's data root: the database file, the
//! per-instance engine databases.
//!
//! Everything here is pure path arithmetic over a data root or instances
//! directory the caller has already determined (the root's own location
//! depends on how the binary was packaged, which only the caller knows);
//! directory creation and existence checks stay with the caller too.

use vstd::prelude::*;
use crate::resolver::{Platform, joined, path_join};

verus! {

/// The database directory under the data root.
pub open spec fn database_dir_view(p: Platform, data_root: Seq<char>) -> Seq<char> {
    joined(p, joined(p, data_root, "data"@), "database"@)
}

/// The launcher database file under the data root.
pub open spec fn database_path_view(p: Platform, data_root: Seq<char>) -> Seq<char> {
    joined(p, database_dir_view(p, data_root), "mailauncher.db"@)
}

/// The directory holding the launcher's database.
pub fn get_database_dir(p: Platform, data_root: &str) -> (r: String)
    ensures
        r@ == database_dir_view(p, data_root@),
{
    path_join(p, path_join(p, data_root, "data").as_str(), "database")
}

/// The launcher's database file.
pub fn get_database_path(p: Platform, data_root: &str) -> (r: String)
    ensures
        r@ == database_path_view(p, data_root@),
{
    path_join(p, get_database_dir(p, data_root).as_str(), "mailauncher.db")
}

/// The deployments directory under the data root.
pub fn get_deployments_dir(p: Platform, data_root: &str) -> (r: String)
    ensures
        r@ == joined(p, data_root@, "deployments"@),
{
    path_join(p, data_root, "deployments")
}

/// The backend log directory under the data root.
pub fn get_log_dir(p: Platform, data_root: &str) -> (r: String)
    ensures
        r@ == joined(p, joined(p, joined(p, data_root@, "data"@), "Log"@), "backend"@),
{
    path_join(p, path_join(p, path_join(p, data_root, "data").as_str(), "Log").as_str(), "backend")
}

/// The places an instance's engine database may sit, most specific
/// first.
pub open spec fn maibot_db_candidates_view(p: Platform, instances_dir: Seq<char>, instance_path: Seq<char>) -> Seq<Seq<char>> {
    let root = joined(p, instances_dir, instance_path);
    seq![
        joined(p, joined(p, joined(p, root, "MaiBot"@), "data"@), "MaiBot.db"@),
        joined(p, joined(p, joined(p, root, "MaiBot"@), "data"@), "maibot.db"@),
        joined(p, joined(p, root, "data"@), "MaiBot.db"@),
        joined(p, joined(p, root, "data"@), "maibot.db"@),
    ]
}

/// The candidate paths of an instance's engine database, for the caller
/// to probe, most specific first.
pub fn maibot_db_candidates(p: Platform, instances_dir: &str, instance_path: &str) -> (r: Vec<String>)
    ensures
        r.deep_view() == maibot_db_candidates_view(p, instances_dir@, instance_path@),
{
    let root = path_join(p, instances_dir, instance_path);
    let engine_data = path_join(p, path_join(p, root.as_str(), "MaiBot").as_str(), "data");
    let plain_data = path_join(p, root.as_str(), "data");
    let mut r: Vec<String> = Vec::new();
    proof {
        assert(r.deep_view() =~= Seq::<Seq<char>>::empty());
    }
    crate::strutil::push_chunk(&mut r, path_join(p, engine_data.as_str(), "MaiBot.db"));
    crate::strutil::push_chunk(&mut r, path_join(p, engine_data.as_str(), "maibot.db"));
    crate::strutil::push_chunk(&mut r, path_join(p, plain_data.as_str(), "MaiBot.db"));
    crate::strutil::push_chunk(&mut r, path_join(p, plain_data.as_str(), "maibot.db"));
    proof {
        assert(r.deep_view() =~= maibot_db_candidates_view(p, instances_dir@, instance_path@));
    }
    r
}

/// Whether candidate `i` was reported to exist.
pub open spec fn candidate_exists(exists: Seq<bool>, i: int) -> bool {
    0 <= i < exists.len() && exists[i]
}

/// The first candidate database path that the caller's probe found on
/// disk, `None` when none of the four exists.  `exists` reports the
/// probe's findings in the order of [`maibot_db_candidates`]; missing
/// entries count as absent.
pub fn find_maibot_db(p: Platform, instances_dir: &str, instance_path: &str, exists: &Vec<bool>) -> (r: Option<String>)
    ensures
        ({
            let cands = maibot_db_candidates_view(p, instances_dir@, instance_path@);
            let e = exists@;
            &&& (candidate_exists(e, 0) ==> (r matches Some(s) && s@ == cands[0]))
            &&& (!candidate_exists(e, 0) && candidate_exists(e, 1)
                ==> (r matches Some(s) && s@ == cands[1]))
            &&& (!candidate_exists(e, 0) && !candidate_exists(e, 1) && candidate_exists(e, 2)
                ==> (r matches Some(s) && s@ == cands[2]))
            &&& (!candidate_exists(e, 0) && !candidate_exists(e, 1) && !candidate_exists(e, 2)
                && candidate_exists(e, 3) ==> (r matches Some(s) && s@ == cands[3]))
            &&& ((!candidate_exists(e, 0) && !candidate_exists(e, 1) && !candidate_exists(e, 2)
                && !candidate_exists(e, 3)) <==> r is None)
        }),
{
    let cands = maibot_db_candidates(p, instances_dir, instance_path);
    proof {
        assert(cands.deep_view().len() == cands@.len());
        assert(cands@.len() == 4);
    }
    let n = exists.len();
    if n > 0 && exists[0] {
        proof {
            assert(cands.deep_view()[0]
                == maibot_db_candidates_view(p, instances_dir@, instance_path@)[0]);
        }
        return Some(cands[0].clone());
    }
    if n > 1 && exists[1] {
        proof {
            assert(cands.deep_view()[1]
                == maibot_db_candidates_view(p, instances_dir@, instance_path@)[1]);
        }
        return Some(cands[1].clone());
    }
    if n > 2 && exists[2] {
        proof {
            assert(cands.deep_view()[2]
                == maibot_db_candidates_view(p, instances_dir@, instance_path@)[2]);
        }
        return Some(cands[2].clone());
    }
    if n > 3 && exists[3] {
        proof {
            assert(cands.deep_view()[3]
                == maibot_db_candidates_view(p, instances_dir@, instance_path@)[3]);
        }
        return Some(cands[3].clone());
    }
    None
}

} // verus!
