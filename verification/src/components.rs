//! The closed set of component kinds and the lookup tables around it:
//! presentation-layer names, download repositories.

use vstd::prelude::*;
use crate::errors::AppError;
use crate::strutil::{str_eq, concat2, eq_ignore_ascii_case, lower_seq, push_chunk};

verus! {

/// The presentation-layer names of the components an instance has on
/// disk, in the fixed listing order.
pub open spec fn available_components_view(has_main: bool, has_napcat: bool, has_adapter: bool) -> Seq<Seq<char>> {
    (if has_main { seq!["MaiBot"@] } else { Seq::empty() })
        + (if has_napcat { seq!["NapCat"@] } else { Seq::empty() })
        + (if has_adapter { seq!["MaiBot-Napcat-Adapter"@] } else { Seq::empty() })
}

/// Lists an instance's components by their presentation-layer names.
/// The caller reports which of the three component directories exist
/// under the instance root.
pub fn available_components(has_main: bool, has_napcat: bool, has_adapter: bool) -> (r: Vec<String>)
    ensures
        r.deep_view() == available_components_view(has_main, has_napcat, has_adapter),
{
    let mut r: Vec<String> = Vec::new();
    proof {
        assert(r.deep_view() =~= Seq::<Seq<char>>::empty());
    }
    if has_main {
        push_chunk(&mut r, "MaiBot".to_owned());
    }
    if has_napcat {
        push_chunk(&mut r, "NapCat".to_owned());
    }
    if has_adapter {
        push_chunk(&mut r, "MaiBot-Napcat-Adapter".to_owned());
    }
    proof {
        assert(r.deep_view() =~= available_components_view(has_main, has_napcat, has_adapter));
    }
    r
}

/// A downloadable component kind.
#[derive(Clone, Copy, Debug, PartialEq, Eq, Structural)]
pub enum DownloadItemType {
    /// The main engine.
    Maibot,
    /// The messaging gateway.
    Napcat,
    /// The protocol adapter between the two.
    NapcatAdapter,
    /// The knowledge-base add-on.
    Lpmm,
}

/// The internal component key a presentation-layer name maps to; an
/// unrecognised name maps to itself.
pub open spec fn internal_component_name(s: Seq<char>) -> Seq<char> {
    if s == "MaiBot"@ {
        "main"@
    } else if s == "NapCat"@ {
        "napcat"@
    } else if s == "MaiBot-Napcat-Adapter"@ {
        "napcat-ada"@
    } else {
        s
    }
}

/// Translates a presentation-layer component name to the internal key,
/// with an identity fallback for unrecognised names.
pub fn map_component_name<'a>(frontend_name: &'a str) -> (r: &'a str)
    ensures
        r@ == internal_component_name(frontend_name@),
{
    if str_eq(frontend_name, "MaiBot") {
        "main"
    } else if str_eq(frontend_name, "NapCat") {
        "napcat"
    } else if str_eq(frontend_name, "MaiBot-Napcat-Adapter") {
        "napcat-ada"
    } else {
        frontend_name
    }
}

/// The component kind a free-form string names, compared with ASCII
/// capitals folded; `None` for unknown strings.
pub open spec fn component_type_of(s: Seq<char>) -> Option<DownloadItemType> {
    let l = lower_seq(s);
    if l == "maibot"@ || l == "mai-bot"@ {
        Some(DownloadItemType::Maibot)
    } else if l == "napcat"@ {
        Some(DownloadItemType::Napcat)
    } else if l == "napcat-adapter"@ || l == "napcatadapter"@ || l == "adapter"@ {
        Some(DownloadItemType::NapcatAdapter)
    } else if l == "lpmm"@ {
        Some(DownloadItemType::Lpmm)
    } else {
        None
    }
}

/// Message of the error for an unknown component type string.
pub open spec fn unknown_component_msg(component: Seq<char>) -> Seq<char> {
    "unknown component type: "@ + component
}

/// Parses a component type string, case-insensitively; unknown strings
/// are rejected as `InvalidInput`.
pub fn parse_component_type(component: &str) -> (r: Result<DownloadItemType, AppError>)
    ensures
        (component_type_of(component@) matches Some(t) ==> r == Ok::<DownloadItemType, AppError>(t)),
        component_type_of(component@) is None ==> (r matches Err(AppError::InvalidInput(m))
            && m@ == unknown_component_msg(component@)),
{
    if eq_ignore_ascii_case(component, "maibot") || eq_ignore_ascii_case(component, "mai-bot") {
        Ok(DownloadItemType::Maibot)
    } else if eq_ignore_ascii_case(component, "napcat") {
        Ok(DownloadItemType::Napcat)
    } else if eq_ignore_ascii_case(component, "napcat-adapter")
        || eq_ignore_ascii_case(component, "napcatadapter")
        || eq_ignore_ascii_case(component, "adapter") {
        Ok(DownloadItemType::NapcatAdapter)
    } else if eq_ignore_ascii_case(component, "lpmm") {
        Ok(DownloadItemType::Lpmm)
    } else {
        Err(AppError::InvalidInput(concat2("unknown component type: ", component)))
    }
}

/// A component's Git repository address and the folder it is cloned
/// into.
#[derive(Clone, Copy, Debug)]
pub struct RepoConfig {
    /// The repository (or release archive) URL.
    pub url: &'static str,
    /// The directory name under the instance root.
    pub folder: &'static str,
}

/// The download repository of each component kind.
pub fn get_repo_config(item_type: &DownloadItemType) -> (r: RepoConfig)
    ensures
        item_type is Maibot ==> r.url@ == "https://github.com/MaiM-with-u/MaiBot.git"@
            && r.folder@ == "MaiBot"@,
        item_type is NapcatAdapter
            ==> r.url@ == "https://github.com/MaiM-with-u/MaiBot-Napcat-Adapter.git"@
            && r.folder@ == "MaiBot-Napcat-Adapter"@,
        item_type is Lpmm ==> r.url@ == "https://github.com/MaiM-with-u/MaiMBot-LPMM.git"@
            && r.folder@ == "MaiMBot-LPMM"@,
        item_type is Napcat
            ==> r.url@ == "https://github.com/NapNeko/NapCatQQ/releases/latest/download/NapCat.Shell.zip"@
            && r.folder@ == "NapCat"@,
{
    match item_type {
        DownloadItemType::Maibot => RepoConfig {
            url: "https://github.com/MaiM-with-u/MaiBot.git",
            folder: "MaiBot",
        },
        DownloadItemType::NapcatAdapter => RepoConfig {
            url: "https://github.com/MaiM-with-u/MaiBot-Napcat-Adapter.git",
            folder: "MaiBot-Napcat-Adapter",
        },
        DownloadItemType::Lpmm => RepoConfig {
            url: "https://github.com/MaiM-with-u/MaiMBot-LPMM.git",
            folder: "MaiMBot-LPMM",
        },
        DownloadItemType::Napcat => RepoConfig {
            url: "https://github.com/NapNeko/NapCatQQ/releases/latest/download/NapCat.Shell.zip",
            folder: "NapCat",
        },
    }
}

} // verus!
