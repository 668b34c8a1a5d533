use vstd::prelude::*;
use vstd::string::*;

use crate::catalog::text_equals;

verus! {

/// Where a mod's file comes from.
pub enum ModSource {
    /// A directly named file fetched through an ad-skipping link.
    SkipAd { artifact_name: String, url: String, extract: bool },
    /// An artifact addressed by a `group:artifact:version` coordinate inside a
    /// named repository.
    Repository { repository: String, artifact: String },
}

/// Failure to turn a mod source into a relative path.
pub enum PathResolutionError {
    /// The coordinate does not consist of exactly three colon-separated segments.
    MalformedCoordinate { coordinate: String },
}

/// Indices of the colons in `s`, in increasing order.
pub open spec fn colon_positions(s: Seq<char>) -> Seq<int>
    decreases s.len(),
{
    if s.len() == 0 {
        Seq::empty()
    } else {
        let rest = colon_positions(s.drop_last());
        if s.last() == ':' {
            rest.push(s.len() - 1)
        } else {
            rest
        }
    }
}

/// `s` with every `.` replaced by `/`.
pub open spec fn dots_to_slashes(s: Seq<char>) -> Seq<char> {
    s.map_values(|c: char| if c == '.' { '/' } else { c })
}

/// The repository-relative path of a `group:artifact:version` coordinate:
/// `group/with/slashes/artifact/version/artifact-version.jar`, or `None` when
/// the coordinate does not hold exactly two colons.
pub open spec fn repository_path(coord: Seq<char>) -> Option<Seq<char>> {
    let c = colon_positions(coord);
    if c.len() == 2 {
        let group = coord.subrange(0, c[0]);
        let artifact = coord.subrange(c[0] + 1, c[1]);
        let version = coord.subrange(c[1] + 1, coord.len() as int);
        Some(
            dots_to_slashes(group) + seq!['/'] + artifact + seq!['/'] + version + seq!['/']
                + artifact + seq!['-'] + version + seq!['.', 'j', 'a', 'r'],
        )
    } else {
        None
    }
}

/// Every colon position lies inside the string, holds a colon, and the
/// positions increase.
pub proof fn lemma_colon_positions(s: Seq<char>)
    ensures
        forall|k: int|
            0 <= k < colon_positions(s).len() ==> 0 <= #[trigger] colon_positions(s)[k] < s.len()
                && s[colon_positions(s)[k]] == ':',
        forall|k: int, l: int|
            0 <= k < l < colon_positions(s).len() ==> colon_positions(s)[k] < colon_positions(s)[l],
    decreases s.len(),
{
    if s.len() > 0 {
        let t = s.drop_last();
        lemma_colon_positions(t);
        assert forall|k: int| 0 <= k < colon_positions(t).len() implies s[colon_positions(t)[k]]
            == ':' by {
            assert(s[colon_positions(t)[k]] == t[colon_positions(t)[k]]);
        }
    }
}

/// The source described by a tag and its optional fields: tag `skip` needs
/// a name and an address, tag `repository` a repository and a coordinate;
/// any other tag, or a missing field, describes nothing.
pub open spec fn source_of_fields(
    kind: Seq<char>,
    artifact_name: Option<String>,
    url: Option<String>,
    extract: bool,
    repository: Option<String>,
    artifact: Option<String>,
) -> Option<ModSource> {
    if kind == seq!['s', 'k', 'i', 'p'] {
        if artifact_name is Some && url is Some {
            Some(ModSource::SkipAd { artifact_name: artifact_name->0, url: url->0, extract })
        } else {
            None
        }
    } else if kind == seq!['r', 'e', 'p', 'o', 's', 'i', 't', 'o', 'r', 'y'] {
        if repository is Some && artifact is Some {
            Some(ModSource::Repository { repository: repository->0, artifact: artifact->0 })
        } else {
            None
        }
    } else {
        None
    }
}

impl ModSource {
    /// Builds a source from its decoded tag and fields; an unknown tag or a
    /// missing field is refused rather than defaulted.
    pub fn from_fields(
        kind: &str,
        artifact_name: Option<String>,
        url: Option<String>,
        extract: bool,
        repository: Option<String>,
        artifact: Option<String>,
    ) -> (r: Option<ModSource>)
        ensures
            r == source_of_fields(kind@, artifact_name, url, extract, repository, artifact),
    {
        proof {
            reveal_strlit("skip");
            reveal_strlit("repository");
            assert("skip"@ =~= seq!['s', 'k', 'i', 'p']);
            assert("repository"@ =~= seq!['r', 'e', 'p', 'o', 's', 'i', 't', 'o', 'r', 'y']);
        }
        if text_equals(kind, "skip") {
            match (artifact_name, url) {
                (Some(artifact_name), Some(url)) => Some(ModSource::SkipAd { artifact_name, url, extract }),
                _ => None,
            }
        } else if text_equals(kind, "repository") {
            match (repository, artifact) {
                (Some(repository), Some(artifact)) => Some(ModSource::Repository { repository, artifact }),
                _ => None,
            }
        } else {
            None
        }
    }

    /// The file path this source resolves to: `<artifact_name>.jar` for a
    /// directly named file, the repository layout path for a coordinate.
    pub open spec fn path_spec(&self) -> Option<Seq<char>> {
        match self {
            ModSource::SkipAd { artifact_name, .. } => Some(artifact_name@ + seq!['.', 'j', 'a', 'r']),
            ModSource::Repository { artifact, .. } => repository_path(artifact@),
        }
    }

    /// Resolves the relative file path of this source. Fails exactly when a
    /// repository coordinate is malformed, and the error carries it.
    pub fn get_path(&self) -> (r: Result<String, PathResolutionError>)
        ensures
            match r {
                Ok(p) => self.path_spec() == Some(p@),
                Err(PathResolutionError::MalformedCoordinate { coordinate }) => {
                    &&& self.path_spec() is None
                    &&& self is Repository
                    &&& coordinate@ == self->artifact@
                },
            },
    {
        match self {
            ModSource::SkipAd { artifact_name, .. } => {
                let mut out = artifact_name.clone();
                out.append(".jar");
                proof {
                    reveal_strlit(".jar");
                }
                Ok(out)
            },
            ModSource::Repository { artifact, .. } => match artifact_path(artifact.as_str()) {
                Some(p) => Ok(p),
                None => Err(PathResolutionError::MalformedCoordinate { coordinate: artifact.clone() }),
            },
        }
    }
}

/// Positions of the colons of `s`.
fn colon_indices(s: &str) -> (r: Vec<usize>)
    ensures
        r@.map_values(|x: usize| x as int) == colon_positions(s@),
{
    let n = s.unicode_len();
    let mut r: Vec<usize> = Vec::new();
    let mut i: usize = 0;
    while i < n
        invariant
            n == s@.len(),
            i <= n,
            r@.map_values(|x: usize| x as int) == colon_positions(s@.subrange(0, i as int)),
        decreases n - i,
    {
        let c = s.get_char(i);
        proof {
            assert(s@.subrange(0, i + 1).drop_last() =~= s@.subrange(0, i as int));
        }
        if c == ':' {
            let ghost before = r@;
            r.push(i);
            proof {
                assert(r@.map_values(|x: usize| x as int) =~= before.map_values(|x: usize| x as int).push(i as int));
            }
        }
        i += 1;
    }
    proof {
        assert(s@.subrange(0, n as int) =~= s@);
    }
    r
}

/// Appends `s` to `out` with every `.` turned into `/`.
fn append_with_slashes(out: &mut String, s: &str)
    ensures
        final(out)@ == old(out)@ + dots_to_slashes(s@),
{
    let ghost start = out@;
    let n = s.unicode_len();
    let mut i: usize = 0;
    while i < n
        invariant
            n == s@.len(),
            i <= n,
            out@ == start + dots_to_slashes(s@.subrange(0, i as int)),
        decreases n - i,
    {
        let c = s.get_char(i);
        if c == '.' {
            out.append("/");
            proof {
                reveal_strlit("/");
            }
        } else {
            out.append(s.substring_char(i, i + 1));
        }
        proof {
            assert(dots_to_slashes(s@.subrange(0, i + 1)) =~= dots_to_slashes(
                s@.subrange(0, i as int),
            ).push(if c == '.' { '/' } else { c }));
        }
        i += 1;
    }
    proof {
        assert(s@.subrange(0, n as int) =~= s@);
    }
}

/// Converts a `group:artifact:version` coordinate into its repository
/// layout path; `None` when it does not hold exactly three segments.
pub fn artifact_path(coordinate: &str) -> (r: Option<String>)
    ensures
        r matches Some(p) ==> repository_path(coordinate@) == Some(p@),
        r is None <==> repository_path(coordinate@) is None,
{
    let positions = colon_indices(coordinate);
    if positions.len() != 2 {
        return None;
    }
    let n = coordinate.unicode_len();
    let a = positions[0];
    let b = positions[1];
    proof {
        lemma_colon_positions(coordinate@);
        assert(colon_positions(coordinate@)[0] == a as int);
        assert(colon_positions(coordinate@)[1] == b as int);
    }
    let group = coordinate.substring_char(0, a);
    let artifact = coordinate.substring_char(a + 1, b);
    let version = coordinate.substring_char(b + 1, n);
    let mut out = String::new();
    append_with_slashes(&mut out, group);
    out.append("/");
    out.append(artifact);
    out.append("/");
    out.append(version);
    out.append("/");
    out.append(artifact);
    out.append("-");
    out.append(version);
    out.append(".jar");
    proof {
        reveal_strlit("/");
        reveal_strlit("-");
        reveal_strlit(".jar");
        assert(out@ =~= repository_path(coordinate@).unwrap());
    }
    Some(out)
}

/// Resolution is a function of the coordinate alone: two repository
/// sources with the same coordinate resolve to the same path, whichever
/// repository they name.
pub proof fn lemma_resolution_deterministic(a: ModSource, b: ModSource)
    requires
        a is Repository,
        b is Repository,
        a->artifact@ == b->artifact@,
    ensures
        a.path_spec() == b.path_spec(),
{
}

} // verus!
