//! The listing of the releases that the server offers, and the part that a
//! cached catalog plays in it.

use crate::versions::bare_of;
use crate::versions::GoVersionInfo;
use crate::text;
use vstd::prelude::*;

verus! {

/// Which catalog is shown, and what is to become of the cache.
#[derive(Debug, Clone, PartialEq, Eq)]
pub struct CatalogChoice {
    /// The catalog to show.
    pub catalog: Vec<GoVersionInfo>,
    /// Whether the catalog shown is to be written to the cache.
    pub write_cache: bool,
    /// Whether the catalog shown is a cached one because the fetch failed.
    pub degraded: bool,
}

/// Whether a cached catalog is current: its newest release is the newest
/// release of the catalog just fetched.
pub open spec fn cache_is_current(
    cached: Option<Seq<(Seq<char>, bool)>>,
    fresh: Seq<(Seq<char>, bool)>,
) -> bool {
    cached matches Some(c) && c.len() > 0 && fresh.len() > 0 && c[0] == fresh[0]
}

/// The catalog to show, whether to write it to the cache, and whether it is
/// shown for want of a better one. A fetched catalog is shown and cached,
/// unless the cache is current: then the cached one is shown and nothing is
/// written. A failed fetch falls back to the cache, and is a failure only
/// where there is none.
pub open spec fn reconciled(
    cached: Option<Seq<(Seq<char>, bool)>>,
    fetched: Result<Seq<(Seq<char>, bool)>, Seq<char>>,
) -> Result<(Seq<(Seq<char>, bool)>, bool, bool), Seq<char>> {
    match fetched {
        Ok(fresh) => if cache_is_current(cached, fresh) {
            Ok((cached->Some_0, false, false))
        } else {
            Ok((fresh, true, false))
        },
        Err(reason) => match cached {
            Some(c) => Ok((c, false, true)),
            None => Err(reason),
        },
    }
}

/// The line for one release.
pub open spec fn release_line(entry: (Seq<char>, bool)) -> Seq<char> {
    "  "@ + crate::versions::bare_version(entry.0) + if entry.1 {
        "\n"@
    } else {
        " (unstable)\n"@
    }
}

/// The lines for some releases, in their order.
pub open spec fn release_lines(catalog: Seq<(Seq<char>, bool)>) -> Seq<char>
    decreases catalog.len(),
{
    if catalog.len() == 0 {
        Seq::empty()
    } else {
        release_lines(catalog.drop_last()) + release_line(catalog.last())
    }
}

/// The listing of a catalog: a heading, a line for each release, and a hint.
pub open spec fn rendering_of(catalog: Seq<(Seq<char>, bool)>) -> Seq<char> {
    "\nAvailable Go versions:\n"@ + release_lines(catalog)
        + "\nUse `golta install go@<version>` to install a specific version.\n"@
}

/// The notice that a cached catalog is shown because the fetch failed.
pub open spec fn degraded_notice(reason: Seq<char>) -> Seq<char> {
    "Warning: could not fetch remote versions ("@ + reason + "); showing cached list.\n"@
}

/// What the remote listing prints: the announcement, the notice where the
/// fetch failed and a cache stands in, and the listing of the catalog shown.
pub open spec fn remote_listing_of(
    cached: Option<Seq<(Seq<char>, bool)>>,
    fetched: Result<Seq<(Seq<char>, bool)>, Seq<char>>,
) -> Result<Seq<char>, Seq<char>> {
    match reconciled(cached, fetched) {
        Err(reason) => Err(reason),
        Ok((catalog, _, degraded)) => Ok(
            "Fetching available Go versions from go.dev...\n"@ + (if degraded {
                degraded_notice(fetched->Err_0)
            } else {
                Seq::empty()
            }) + rendering_of(catalog),
        ),
    }
}

/// The value of an optional catalog.
pub open spec fn cached_view(cached: Option<Vec<GoVersionInfo>>) -> Option<Seq<(Seq<char>, bool)>> {
    match cached {
        Some(c) => Some(crate::versions::catalog_view(c@)),
        None => None,
    }
}

/// The value of a fetch's result.
pub open spec fn fetched_view(fetched: Result<Vec<GoVersionInfo>, String>) -> Result<
    Seq<(Seq<char>, bool)>,
    Seq<char>,
> {
    match fetched {
        Ok(c) => Ok(crate::versions::catalog_view(c@)),
        Err(reason) => Err(reason@),
    }
}

/// Whether two releases are the same.
pub fn same_release(a: &GoVersionInfo, b: &GoVersionInfo) -> (r: bool)
    ensures
        r == (a@ == b@),
{
    a.stable == b.stable && text::same_text(a.version.as_str(), b.version.as_str())
}

/// Chooses between a cached catalog and the outcome of a fetch.
pub fn reconcile_catalog(cached: Option<Vec<GoVersionInfo>>, fetched: Result<
    Vec<GoVersionInfo>,
    String,
>) -> (r: Result<CatalogChoice, String>)
    ensures
        match reconciled(cached_view(cached), fetched_view(fetched)) {
            Ok((catalog, write, degraded)) => r is Ok && crate::versions::catalog_view(r->Ok_0.catalog@) == catalog
                && r->Ok_0.write_cache == write && r->Ok_0.degraded == degraded,
            Err(reason) => r is Err && r->Err_0@ == reason,
        },
        r is Ok && r->Ok_0.write_cache ==> fetched is Ok && r->Ok_0.catalog == fetched->Ok_0,
        r is Ok && !r->Ok_0.write_cache ==> cached is Some && r->Ok_0.catalog == cached->Some_0,
        cached is Some ==> r is Ok,
{
    match fetched {
        Ok(fresh) => {
            let current = match &cached {
                Some(c) => c.len() > 0 && fresh.len() > 0 && same_release(&c[0], &fresh[0]),
                None => false,
            };
            if current {
                match cached {
                    Some(c) => Ok(CatalogChoice { catalog: c, write_cache: false, degraded: false }),
                    None => Ok(CatalogChoice { catalog: fresh, write_cache: true, degraded: false }),
                }
            } else {
                Ok(CatalogChoice { catalog: fresh, write_cache: true, degraded: false })
            }
        },
        Err(reason) => match cached {
            Some(c) => Ok(CatalogChoice { catalog: c, write_cache: false, degraded: true }),
            None => Err(reason),
        },
    }
}

/// The listing of a catalog: a heading, a line for each release with the
/// unstable ones marked, and a hint.
pub fn render_versions(versions: &Vec<GoVersionInfo>) -> (r: String)
    ensures
        r@ == rendering_of(crate::versions::catalog_view(versions@)),
{
    let ghost c = crate::versions::catalog_view(versions@);
    let mut out = String::from_str("\nAvailable Go versions:\n");
    let ghost head = out@;
    let mut i: usize = 0;
    assert(c.take(0) =~= Seq::<(Seq<char>, bool)>::empty());
    assert(head + Seq::<char>::empty() =~= head);
    while i < versions.len()
        invariant
            i <= versions.len(),
            c == crate::versions::catalog_view(versions@),
            out@ == head + release_lines(c.take(i as int)),
        decreases versions.len() - i,
    {
        assert(c.take(i + 1).drop_last() =~= c.take(i as int));
        assert(c.take(i + 1).last() == versions@[i as int]@);
        let ghost so_far = release_lines(c.take(i as int));
        let ghost line = release_line(versions@[i as int]@);
        out.append("  ");
        out.append(bare_of(versions[i].version.as_str()));
        if versions[i].stable {
            out.append("\n");
        } else {
            out.append(" (unstable)\n");
        }
        assert(out@ =~= head + (so_far + line));
        i += 1;
    }
    assert(c.take(versions.len() as int) =~= c);
    out.append("\nUse `golta install go@<version>` to install a specific version.\n");
    out
}

/// What the remote listing prints, given the cached catalog, if there is
/// one, and the outcome of the fetch; or the fetch's failure, where there is
/// no cache to fall back to.
pub fn list_remote_go_versions(cached: Option<Vec<GoVersionInfo>>, fetched: Result<
    Vec<GoVersionInfo>,
    String,
>) -> (r: Result<String, String>)
    ensures
        match remote_listing_of(cached_view(cached), fetched_view(fetched)) {
            Ok(output) => r is Ok && r->Ok_0@ == output,
            Err(reason) => r is Err && r->Err_0@ == reason,
        },
{
    let mut out = String::from_str("Fetching available Go versions from go.dev...\n");
    let ghost head = out@;
    match &fetched {
        Err(reason) => {
            if cached.is_some() {
                out.append("Warning: could not fetch remote versions (");
                out.append(reason.as_str());
                out.append("); showing cached list.\n");
                assert(out@ =~= head + degraded_notice(reason@));
            }
        },
        Ok(_) => {
            assert(out@ =~= head + Seq::<char>::empty());
        },
    }
    match reconcile_catalog(cached, fetched) {
        Err(reason) => Err(reason),
        Ok(choice) => {
            let listing = render_versions(&choice.catalog);
            out.append(listing.as_str());
            Ok(out)
        },
    }
}

/// Where the fetch fails and a cache is there, the cached catalog is shown
/// with the notice that it is: the failure becomes no error.
pub proof fn failed_fetch_shows_the_cache(cached: Seq<(Seq<char>, bool)>, reason: Seq<char>)
    ensures
        reconciled(Some(cached), Err(reason)) == Ok::<
            (Seq<(Seq<char>, bool)>, bool, bool),
            Seq<char>,
        >((cached, false, true)),
        remote_listing_of(Some(cached), Err(reason)) == Ok::<Seq<char>, Seq<char>>(
            "Fetching available Go versions from go.dev...\n"@ + degraded_notice(reason)
                + rendering_of(cached),
        ),
{
}

/// Where the newest release of the cache is the newest release fetched, the
/// cache is shown as it stands and nothing is written to it.
pub proof fn current_cache_is_not_written(
    cached: Seq<(Seq<char>, bool)>,
    fresh: Seq<(Seq<char>, bool)>,
)
    requires
        cached.len() > 0,
        fresh.len() > 0,
        cached[0] == fresh[0],
    ensures
        reconciled(Some(cached), Ok(fresh)) == Ok::<
            (Seq<(Seq<char>, bool)>, bool, bool),
            Seq<char>,
        >((cached, false, false)),
{
}

/// The cache is written exactly where a catalog was fetched and the cache
/// is not current; what is written is the catalog fetched.
pub proof fn cache_is_written_only_with_what_was_fetched(
    cached: Option<Seq<(Seq<char>, bool)>>,
    fetched: Result<Seq<(Seq<char>, bool)>, Seq<char>>,
)
    ensures
        reconciled(cached, fetched) matches Ok((catalog, write, _)) ==> (write <==> fetched is Ok
            && !cache_is_current(cached, fetched->Ok_0)) && (write ==> catalog == fetched->Ok_0),
{
}

} // verus!
