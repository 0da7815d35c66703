//! Validation of scan-session definitions. Roots may be resolved against
//! the filesystem, so validation runs in two steps: `prepare_session`
//! checks everything and says which roots may be resolved, and
//! `finish_session` takes the resolved forms and completes the definition.
use vstd::prelude::*;
use vstd::utf8::encode_utf8;
use crate::cursor::{json_string, push_json_string, push_str};
use crate::failure::{field_details, failure, string_from, DetailValue, DetailView, FailureView, ProtocolFailure};
use crate::paths::{
    is_absolute_path, path_is_absolute,
    compare_key, lexical_path, lexical_spec, location_count_failure, locations_prefix, first_bad_location, location_path_failure,
    non_overlapping_directories, non_overlapping_prefix, path_is_within, paths_equal, validate_location_paths, within_spec,
    PathStyle,
};
use crate::text::{chars_of, eq_ignore_ascii_case, eq_ignore_ascii_case_spec, string_of, trim_chars, trim_spec, trim_str};
use crate::validate::{option_view, strings_view, MAXIMUM_FRAME_BYTES};
use crate::failure::str_equals;

verus! {

/// A cloud-synchronized location registered by the client.
#[derive(Debug, Clone)]
pub struct RegisteredCloudLocation {
    pub path: String,
    pub provider_id: String,
    pub display_name: String,
}

/// The cloud policy that excludes registered cloud roots from scanning, by wire name.
pub open spec fn excludes_registered_roots(policy: Seq<char>) -> bool {
    policy == "exclude_registered_roots"@
}

/// A session definition whose fields passed every check that needs no I/O.
#[derive(Debug, Clone)]
pub struct SessionDraft {
    pub name: String,
    /// The trimmed roots, in request order.
    pub roots: Vec<String>,
    /// Whether each root may be resolved on disk; a root inside an excluded
    /// location is never touched.
    pub resolvable: Vec<bool>,
    pub cloud_policy: String,
    pub manual_location_exclusions: Vec<String>,
    pub registered_cloud_locations: Vec<RegisteredCloudLocation>,
    pub cloud_detection_status: String,
}

/// A complete, normalized session definition.
#[derive(Debug, Clone)]
pub struct ValidatedSession {
    pub name: String,
    pub roots: Vec<String>,
    pub ignore_patterns: Vec<String>,
    pub cloud_policy: String,
    pub manual_location_exclusions: Vec<String>,
    pub registered_cloud_locations: Vec<RegisteredCloudLocation>,
    pub cloud_detection_status: String,
}

pub open spec fn location_view(l: RegisteredCloudLocation) -> (Seq<char>, Seq<char>, Seq<char>) {
    (l.path@, l.provider_id@, l.display_name@)
}

pub open spec fn locations_view(v: Seq<RegisteredCloudLocation>) -> Seq<(Seq<char>, Seq<char>, Seq<char>)> {
    v.map_values(|l: RegisteredCloudLocation| location_view(l))
}

pub open spec fn cloud_path_acceptable(l: (Seq<char>, Seq<char>, Seq<char>)) -> bool {
    trim_spec(l.0).len() > 0 && path_is_absolute(trim_spec(l.0))
}

pub open spec fn cloud_names_acceptable(l: (Seq<char>, Seq<char>, Seq<char>)) -> bool {
    trim_spec(l.1).len() <= 200 && trim_spec(l.2).len() <= 200
}

/// The normalized form of a registered location.
pub open spec fn normalized_location(style: PathStyle, l: (Seq<char>, Seq<char>, Seq<char>)) -> (Seq<char>, Seq<char>, Seq<char>) {
    (
        lexical_spec(style, trim_spec(l.0)),
        trim_spec(l.1),
        if trim_spec(l.2).len() == 0 {
            "Cloud provider"@
        } else {
            trim_spec(l.2)
        },
    )
}

/// The normalized locations of the first `n` registrations, a location
/// already present (by path) being skipped.
pub open spec fn cloud_locations_prefix(style: PathStyle, ls: Seq<(Seq<char>, Seq<char>, Seq<char>)>, n: int) -> Seq<
    (Seq<char>, Seq<char>, Seq<char>),
>
    decreases n,
{
    if n <= 0 {
        Seq::empty()
    } else {
        let before = cloud_locations_prefix(style, ls, n - 1);
        let l = normalized_location(style, ls[n - 1]);
        if exists|j: int| 0 <= j < before.len() && compare_key(style, (#[trigger] before[j]).0) == compare_key(style, l.0) {
            before
        } else {
            before.push(l)
        }
    }
}

pub open spec fn cloud_location_failure(message: Seq<char>, index: int) -> FailureView {
    failure(
        "invalid_session"@,
        message,
        field_details("registeredCloudLocations"@).push(("locationIndex"@, DetailView::Integer(index))),
    )
}

/// The failure for the first unacceptable registration at or after `k`.
pub open spec fn cloud_failure_from(ls: Seq<(Seq<char>, Seq<char>, Seq<char>)>, k: int) -> Option<FailureView>
    decreases ls.len() - k,
{
    if k < 0 || k >= ls.len() {
        None
    } else if !cloud_path_acceptable(ls[k]) {
        Some(cloud_location_failure("Every registered cloud location must have an absolute path"@, k))
    } else if !cloud_names_acceptable(ls[k]) {
        Some(cloud_location_failure("Cloud provider identifiers and display names must not exceed 200 characters"@, k))
    } else {
        cloud_failure_from(ls, k + 1)
    }
}

/// Checks and normalizes registered cloud locations.
pub fn validate_cloud_locations(locations: Vec<RegisteredCloudLocation>, style: PathStyle) -> (r: Result<
    Vec<RegisteredCloudLocation>,
    ProtocolFailure,
>)
    ensures
        locations@.len() > 128 ==> (r matches Err(f) && f@ =~~= failure(
            "invalid_session"@,
            "A session may contain at most 128 registered cloud locations"@,
            field_details("registeredCloudLocations"@),
        )),
        locations@.len() <= 128 ==> match cloud_failure_from(locations_view(locations@), 0) {
            Some(g) => r matches Err(f) && f@ =~~= g,
            None => r matches Ok(v) && locations_view(v@) == cloud_locations_prefix(
                style,
                locations_view(locations@),
                locations@.len() as int,
            ),
        },
{
    if locations.len() > 128 {
        return Err(
            ProtocolFailure::new("invalid_session", "A session may contain at most 128 registered cloud locations").with_field(
                "registeredCloudLocations",
            ),
        );
    }
    let ghost all = locations_view(locations@);
    let mut out: Vec<RegisteredCloudLocation> = Vec::new();
    let mut i: usize = 0;
    while i < locations.len()
        invariant
            i <= locations@.len(),
            locations@.len() <= 128,
            all == locations_view(locations@),
            cloud_failure_from(all, 0) == cloud_failure_from(all, i as int),
            locations_view(out@) == cloud_locations_prefix(style, all, i as int),
        decreases locations.len() - i,
    {
        let location = &locations[i];
        assert(all[i as int] == location_view(*location));
        let path = trim_chars(&chars_of(location.path.as_str()));
        let provider_id = trim_chars(&chars_of(location.provider_id.as_str()));
        let display_name = trim_chars(&chars_of(location.display_name.as_str()));
        if path.len() == 0 || !is_absolute_path(string_of(&path).as_str()) {
            let f = ProtocolFailure::new("invalid_session", "Every registered cloud location must have an absolute path").with_field(
                "registeredCloudLocations",
            ).with_detail("locationIndex", DetailValue::Count(i));
            return Err(f);
        }
        if provider_id.len() > 200 || display_name.len() > 200 {
            let f = ProtocolFailure::new(
                "invalid_session",
                "Cloud provider identifiers and display names must not exceed 200 characters",
            ).with_field("registeredCloudLocations").with_detail("locationIndex", DetailValue::Count(i));
            return Err(f);
        }
        let normalized_path = lexical_path(string_of(&path).as_str(), style);
        let ghost before = locations_view(out@);
        let mut present = false;
        let mut k: usize = 0;
        while k < out.len()
            invariant
                k <= out@.len(),
                before == locations_view(out@),
                present == exists|j: int| 0 <= j < k && compare_key(style, (#[trigger] before[j]).0) == compare_key(
                    style,
                    normalized_path@,
                ),
            decreases out.len() - k,
        {
            assert(before[k as int] == location_view(out@[k as int]));
            if paths_equal(out[k].path.as_str(), normalized_path.as_str(), style) {
                present = true;
            }
            k = k + 1;
        }
        if !present {
            let display = if display_name.len() == 0 {
                string_from("Cloud provider")
            } else {
                string_of(&display_name)
            };
            let entry = RegisteredCloudLocation { path: normalized_path, provider_id: string_of(&provider_id), display_name: display };
            out.push(entry);
            assert(locations_view(out@) =~= before.push(location_view(entry)));
        }
        i = i + 1;
    }
    Ok(out)
}

/// A root is a non-empty absolute path once trimmed.
pub open spec fn root_acceptable(r: Seq<char>) -> bool {
    trim_spec(r).len() > 0 && path_is_absolute(trim_spec(r))
}

pub open spec fn first_bad_root_from(roots: Seq<Seq<char>>, k: int) -> Option<int>
    decreases roots.len() - k,
{
    if k < 0 || k >= roots.len() {
        None
    } else if !root_acceptable(roots[k]) {
        Some(k)
    } else {
        first_bad_root_from(roots, k + 1)
    }
}

/// The locations whose contents are never touched: the manual exclusions,
/// and the registered cloud roots when the policy excludes them.
pub open spec fn pre_io_exclusions(
    manual: Seq<Seq<char>>,
    cloud: Seq<(Seq<char>, Seq<char>, Seq<char>)>,
    policy: Seq<char>,
) -> Seq<Seq<char>> {
    manual + if excludes_registered_roots(policy) {
        cloud.map_values(|l: (Seq<char>, Seq<char>, Seq<char>)| l.0)
    } else {
        Seq::empty()
    }
}

/// Whether a root may be resolved on disk: it lies inside no excluded location.
pub open spec fn root_resolvable(style: PathStyle, root: Seq<char>, exclusions: Seq<Seq<char>>) -> bool {
    !exists|j: int| 0 <= j < exclusions.len() && within_spec(style, root, #[trigger] exclusions[j])
}

/// What `prepare_session` decides for a request, checking in order the
/// name, the number of roots, the manual exclusions, the cloud locations
/// and each root.
pub open spec fn prepare_failure(
    name: Seq<char>,
    roots: Seq<Seq<char>>,
    manual: Seq<Seq<char>>,
    manual_limit_ok: bool,
    cloud: Seq<(Seq<char>, Seq<char>, Seq<char>)>,
) -> Option<FailureView> {
    if trim_spec(name).len() == 0 || trim_spec(name).len() > 200 {
        Some(failure("invalid_session"@, "Session name must contain 1 to 200 characters"@, field_details("name"@)))
    } else if roots.len() == 0 || roots.len() > 64 {
        Some(failure("invalid_session"@, "A session must contain 1 to 64 roots"@, field_details("roots"@)))
    } else if !manual_limit_ok {
        Some(location_count_failure("manualLocationExclusions"@, 256))
    } else if first_bad_location(manual) is Some {
        Some(location_path_failure("manualLocationExclusions"@, first_bad_location(manual)->0))
    } else if cloud.len() > 128 {
        Some(
            failure(
                "invalid_session"@,
                "A session may contain at most 128 registered cloud locations"@,
                field_details("registeredCloudLocations"@),
            ),
        )
    } else if cloud_failure_from(cloud, 0) is Some {
        cloud_failure_from(cloud, 0)
    } else if first_bad_root_from(roots, 0) is Some {
        Some(
            failure(
                "invalid_session"@,
                "Every root must be a non-empty absolute filesystem path"@,
                field_details("roots"@).push(("rootIndex"@, DetailView::Integer(first_bad_root_from(roots, 0)->0))),
            ),
        )
    } else {
        None
    }
}

/// The failure for the first root that is not an absolute path, if any.
pub open spec fn root_stage_failure(roots: Seq<Seq<char>>) -> Option<FailureView> {
    match first_bad_root_from(roots, 0) {
        Some(i) => Some(
            failure(
                "invalid_session"@,
                "Every root must be a non-empty absolute filesystem path"@,
                field_details("roots"@).push(("rootIndex"@, DetailView::Integer(i))),
            ),
        ),
        None => None,
    }
}

/// Checks a session definition up to the point where roots are resolved
/// on disk, and says which roots may be resolved.
pub fn prepare_session(
    name: String,
    roots: Vec<String>,
    cloud_policy: String,
    manual_location_exclusions: Vec<String>,
    registered_cloud_locations: Vec<RegisteredCloudLocation>,
    cloud_detection_status: String,
    style: PathStyle,
) -> (r: Result<SessionDraft, ProtocolFailure>)
    ensures
        match prepare_failure(
            name@,
            strings_view(roots@),
            strings_view(manual_location_exclusions@),
            manual_location_exclusions@.len() <= 256,
            locations_view(registered_cloud_locations@),
        ) {
            Some(g) => r matches Err(f) && f@ =~~= g,
            None => r matches Ok(d) && {
                let manual = locations_prefix(
                    style,
                    strings_view(manual_location_exclusions@),
                    manual_location_exclusions@.len() as int,
                );
                let cloud = cloud_locations_prefix(
                    style,
                    locations_view(registered_cloud_locations@),
                    registered_cloud_locations@.len() as int,
                );
                &&& d.name@ == trim_spec(name@)
                &&& strings_view(d.roots@) == strings_view(roots@).map_values(|s: Seq<char>| trim_spec(s))
                &&& d.resolvable@.len() == roots@.len()
                &&& forall|k: int| 0 <= k < roots@.len() ==> #[trigger] d.resolvable@[k] == root_resolvable(
                    style,
                    trim_spec(roots@[k]@),
                    pre_io_exclusions(manual, cloud, cloud_policy@),
                )
                &&& d.cloud_policy@ == cloud_policy@
                &&& strings_view(d.manual_location_exclusions@) == manual
                &&& locations_view(d.registered_cloud_locations@) == cloud
                &&& d.cloud_detection_status@ == cloud_detection_status@
            },
        },
{
    let ghost roots_view = strings_view(roots@);
    let trimmed_name = trim_str(name.as_str());
    let name_length = chars_of(trimmed_name.as_str()).len();
    if name_length == 0 || name_length > 200 {
        return Err(ProtocolFailure::new("invalid_session", "Session name must contain 1 to 200 characters").with_field("name"));
    }
    if roots.len() == 0 || roots.len() > 64 {
        return Err(ProtocolFailure::new("invalid_session", "A session must contain 1 to 64 roots").with_field("roots"));
    }
    let ghost manual_view = strings_view(manual_location_exclusions@);
    let ghost manual_len = manual_location_exclusions@.len();
    let manual = match validate_location_paths(manual_location_exclusions, 256, "manualLocationExclusions", style) {
        Ok(v) => v,
        Err(f) => {
            return Err(f);
        },
    };
    let ghost cloud_view = locations_view(registered_cloud_locations@);
    let ghost cloud_len = registered_cloud_locations@.len();
    let cloud = match validate_cloud_locations(registered_cloud_locations, style) {
        Ok(v) => v,
        Err(f) => {
            return Err(f);
        },
    };
    let mut exclusions: Vec<String> = manual.clone();
    let excluding_cloud = crate::failure::str_equals(cloud_policy.as_str(), "exclude_registered_roots");
    let ghost cloud_paths = if excluding_cloud {
        locations_view(cloud@).map_values(|l: (Seq<char>, Seq<char>, Seq<char>)| l.0)
    } else {
        Seq::<Seq<char>>::empty()
    };
    assert(strings_view(exclusions@) =~= strings_view(manual@));
    if excluding_cloud {
        let mut c: usize = 0;
        while c < cloud.len()
            invariant
                c <= cloud@.len(),
                strings_view(exclusions@) == strings_view(manual@) + locations_view(cloud@).map_values(
                    |l: (Seq<char>, Seq<char>, Seq<char>)| l.0,
                ).subrange(0, c as int),
            decreases cloud.len() - c,
        {
            let p = cloud[c].path.clone();
            let ghost old_ex = strings_view(exclusions@);
            let ghost paths = locations_view(cloud@).map_values(|l: (Seq<char>, Seq<char>, Seq<char>)| l.0);
            assert(paths[c as int] == cloud@[c as int].path@);
            assert(paths.subrange(0, c + 1) =~= paths.subrange(0, c as int).push(paths[c as int]));
            exclusions.push(p);
            assert(strings_view(exclusions@) =~= old_ex.push(p@));
            assert(strings_view(exclusions@) =~= strings_view(manual@) + locations_view(cloud@).map_values(
                |l: (Seq<char>, Seq<char>, Seq<char>)| l.0,
            ).subrange(0, c + 1));
            c = c + 1;
        }
        assert(locations_view(cloud@).map_values(|l: (Seq<char>, Seq<char>, Seq<char>)| l.0).subrange(0, cloud@.len() as int)
            =~= cloud_paths);
    }
    assert(strings_view(exclusions@) =~= pre_io_exclusions(strings_view(manual@), locations_view(cloud@), cloud_policy@)) by {
        reveal_strlit("exclude_registered_roots");
    }
    let mut trimmed_roots: Vec<String> = Vec::new();
    let mut resolvable: Vec<bool> = Vec::new();
    let mut k: usize = 0;
    let ghost manual_ok = manual_len <= 256;
    assert(prepare_failure(name@, roots_view, manual_view, manual_ok, cloud_view) == root_stage_failure(roots_view));
    while k < roots.len()
        invariant
            k <= roots@.len(),
            roots_view == strings_view(roots@),
            prepare_failure(name@, roots_view, manual_view, manual_ok, cloud_view) == root_stage_failure(roots_view),
            manual_view == strings_view(manual_location_exclusions@),
            manual_ok == (manual_location_exclusions@.len() <= 256),
            cloud_view == locations_view(registered_cloud_locations@),
            first_bad_root_from(roots_view, 0) == first_bad_root_from(roots_view, k as int),
            strings_view(trimmed_roots@) == roots_view.subrange(0, k as int).map_values(|s: Seq<char>| trim_spec(s)),
            resolvable@.len() == k,
            forall|j: int|
                0 <= j < k ==> #[trigger] resolvable@[j] == root_resolvable(
                    style,
                    trim_spec(roots@[j]@),
                    strings_view(exclusions@),
                ),
        decreases roots.len() - k,
    {
        let root = trim_str(roots[k].as_str());
        let root_chars = chars_of(root.as_str());
        assert(roots_view[k as int] == roots@[k as int]@);
        if root_chars.len() == 0 || !is_absolute_path(root.as_str()) {
            assert(!root_acceptable(roots_view[k as int]));
            assert(first_bad_root_from(roots_view, k as int) == Some(k as int));
            let f = ProtocolFailure::new("invalid_session", "Every root must be a non-empty absolute filesystem path").with_field(
                "roots",
            ).with_detail("rootIndex", DetailValue::Count(k));
            assert(f@ =~~= failure(
                "invalid_session"@,
                "Every root must be a non-empty absolute filesystem path"@,
                field_details("roots"@).push(("rootIndex"@, DetailView::Integer(k as int))),
            ));
            assert(root_stage_failure(roots_view) == Some(failure(
                "invalid_session"@,
                "Every root must be a non-empty absolute filesystem path"@,
                field_details("roots"@).push(("rootIndex"@, DetailView::Integer(k as int))),
            )));
            return Err(f);
        }
        let mut inside = false;
        let mut e: usize = 0;
        while e < exclusions.len()
            invariant
                e <= exclusions@.len(),
                inside == exists|j: int| 0 <= j < e && within_spec(style, root@, #[trigger] strings_view(exclusions@)[j]),
            decreases exclusions.len() - e,
        {
            assert(strings_view(exclusions@)[e as int] == exclusions@[e as int]@);
            if path_is_within(root.as_str(), exclusions[e].as_str(), style) {
                inside = true;
            }
            e = e + 1;
        }
        resolvable.push(!inside);
        let ghost old_trimmed = strings_view(trimmed_roots@);
        assert(roots_view.subrange(0, k + 1) =~= roots_view.subrange(0, k as int).push(roots_view[k as int]));
        assert(roots_view.subrange(0, k + 1).map_values(|s: Seq<char>| trim_spec(s)) =~= roots_view.subrange(0, k as int).map_values(
            |s: Seq<char>| trim_spec(s),
        ).push(trim_spec(roots_view[k as int])));
        trimmed_roots.push(root);
        assert(strings_view(trimmed_roots@) =~= old_trimmed.push(root@));
        assert(strings_view(trimmed_roots@) =~= roots_view.subrange(0, k + 1).map_values(|s: Seq<char>| trim_spec(s)));
        k = k + 1;
    }
    assert(roots_view.subrange(0, roots@.len() as int) =~= roots_view);
    Ok(
        SessionDraft {
            name: trimmed_name,
            roots: trimmed_roots,
            resolvable,
            cloud_policy,
            manual_location_exclusions: manual,
            registered_cloud_locations: cloud,
            cloud_detection_status,
        },
    )
}

/// What `glob::Pattern::new` reports for a pattern: `None` when it
/// compiles, otherwise the text of its error.
pub uninterp spec fn glob_pattern_error(pattern: Seq<char>) -> Option<Seq<char>>;

/// Compiles a pattern with `glob::Pattern::new` and reports the error text,
/// if any. The result is named by `glob_pattern_error`, a function of the
/// pattern alone; the glob grammar itself is not stated.
#[verifier::external_body]
pub(crate) fn check_glob_pattern(pattern: &str) -> (r: Option<String>)
    ensures
        option_view(r) == glob_pattern_error(pattern@),
{
    match glob::Pattern::new(pattern) {
        Ok(_) => None,
        Err(error) => Some(error.to_string()),
    }
}

/// The root each request root resolves to: its resolved form when it may
/// be resolved and resolution succeeded, the trimmed root otherwise.
pub open spec fn resolved_root(root: Seq<char>, resolvable: bool, canonical: Option<Seq<char>>) -> Seq<char> {
    if resolvable && canonical is Some {
        canonical->0
    } else {
        root
    }
}

/// The first `n` values with later ASCII-case-insensitive repeats dropped.
pub open spec fn dedupe_ignore_case(vals: Seq<Seq<char>>, n: int) -> Seq<Seq<char>>
    decreases n,
{
    if n <= 0 {
        Seq::empty()
    } else {
        let before = dedupe_ignore_case(vals, n - 1);
        if exists|j: int| 0 <= j < before.len() && eq_ignore_ascii_case_spec(#[trigger] before[j], vals[n - 1]) {
            before
        } else {
            before.push(vals[n - 1])
        }
    }
}

/// The first `n` values with later exact repeats dropped.
pub open spec fn dedupe_exact(vals: Seq<Seq<char>>, n: int) -> Seq<Seq<char>>
    decreases n,
{
    if n <= 0 {
        Seq::empty()
    } else {
        let before = dedupe_exact(vals, n - 1);
        if before.contains(vals[n - 1]) {
            before
        } else {
            before.push(vals[n - 1])
        }
    }
}

pub open spec fn pattern_length_failure() -> FailureView {
    failure("invalid_session"@, "Ignore patterns must contain 1 to 1024 characters"@, field_details("ignorePatterns"@))
}

pub open spec fn pattern_glob_failure(pattern: Seq<char>, error: Seq<char>) -> FailureView {
    failure(
        "invalid_session"@,
        "Invalid ignore pattern '"@ + pattern + "': "@ + error,
        field_details("ignorePatterns"@).push(("pattern"@, DetailView::Text(pattern))),
    )
}

/// The failure for the first unacceptable pattern at or after `k`.
pub open spec fn pattern_failure_from(patterns: Seq<Seq<char>>, k: int) -> Option<FailureView>
    decreases patterns.len() - k,
{
    if k < 0 || k >= patterns.len() {
        None
    } else {
        let t = trim_spec(patterns[k]);
        if t.len() == 0 || encode_utf8(t).len() > 1024 {
            Some(pattern_length_failure())
        } else if glob_pattern_error(t) is Some {
            Some(pattern_glob_failure(t, glob_pattern_error(t)->0))
        } else {
            pattern_failure_from(patterns, k + 1)
        }
    }
}

/// Checks ignore patterns: at most 512, each 1 to 1024 bytes once trimmed
/// and a valid glob; repeats are dropped.
pub fn validate_ignore_patterns(patterns: Vec<String>) -> (r: Result<Vec<String>, ProtocolFailure>)
    ensures
        patterns@.len() > 512 ==> (r matches Err(f) && f@ =~~= failure(
            "invalid_session"@,
            "A session may contain at most 512 ignore patterns"@,
            field_details("ignorePatterns"@),
        )),
        patterns@.len() <= 512 ==> match pattern_failure_from(strings_view(patterns@), 0) {
            Some(g) => r matches Err(f) && f@ =~~= g,
            None => r matches Ok(v) && strings_view(v@) == dedupe_exact(
                strings_view(patterns@).map_values(|p: Seq<char>| trim_spec(p)),
                patterns@.len() as int,
            ),
        },
{
    if patterns.len() > 512 {
        return Err(
            ProtocolFailure::new("invalid_session", "A session may contain at most 512 ignore patterns").with_field("ignorePatterns"),
        );
    }
    let ghost all = strings_view(patterns@);
    let ghost trimmed = all.map_values(|p: Seq<char>| trim_spec(p));
    let mut out: Vec<String> = Vec::new();
    let mut i: usize = 0;
    while i < patterns.len()
        invariant
            i <= patterns@.len(),
            patterns@.len() <= 512,
            all == strings_view(patterns@),
            trimmed == all.map_values(|p: Seq<char>| trim_spec(p)),
            pattern_failure_from(all, 0) == pattern_failure_from(all, i as int),
            strings_view(out@) == dedupe_exact(trimmed, i as int),
        decreases patterns.len() - i,
    {
        let pattern = trim_str(patterns[i].as_str());
        assert(all[i as int] == patterns@[i as int]@);
        assert(trimmed[i as int] == pattern@);
        let byte_length = pattern.as_str().as_bytes().len();
        if chars_of(pattern.as_str()).len() == 0 || byte_length > 1024 {
            return Err(
                ProtocolFailure::new("invalid_session", "Ignore patterns must contain 1 to 1024 characters").with_field("ignorePatterns"),
            );
        }
        match check_glob_pattern(pattern.as_str()) {
            Some(error) => {
                let mut message = string_from("Invalid ignore pattern '");
                message.append(pattern.as_str());
                message.append("': ");
                message.append(error.as_str());
                let f = ProtocolFailure { code: string_from("invalid_session"), message, retryable: false, details: Vec::new() };
                assert(f@.details =~= Seq::<(Seq<char>, DetailView)>::empty());
                let g = f.with_field("ignorePatterns").with_detail("pattern", DetailValue::Text(pattern));
                assert(g@ =~~= pattern_glob_failure(trimmed[i as int], glob_pattern_error(trimmed[i as int])->0));
                return Err(g);
            },
            None => {},
        }
        let ghost before = strings_view(out@);
        let mut present = false;
        let mut k: usize = 0;
        while k < out.len()
            invariant
                k <= out@.len(),
                before == strings_view(out@),
                present == exists|j: int| 0 <= j < k && #[trigger] before[j] == pattern@,
            decreases out.len() - k,
        {
            assert(before[k as int] == out@[k as int]@);
            if crate::failure::str_equals(out[k].as_str(), pattern.as_str()) {
                present = true;
            }
            k = k + 1;
        }
        proof {
            if before.contains(pattern@) {
                let j = choose|j: int| 0 <= j < before.len() && before[j] == pattern@;
                assert(before[j] == pattern@);
            }
        }
        if !present {
            out.push(pattern);
            assert(strings_view(out@) =~= before.push(trimmed[i as int]));
        }
        i = i + 1;
    }
    Ok(out)
}

/// A JSON array of strings, without separators around the brackets.
pub open spec fn json_string_items(items: Seq<Seq<char>>) -> Seq<char>
    decreases items.len(),
{
    if items.len() == 0 {
        Seq::empty()
    } else if items.len() == 1 {
        json_string(items[0])
    } else {
        json_string_items(items.drop_last()) + ","@ + json_string(items.last())
    }
}

pub open spec fn json_string_array(items: Seq<Seq<char>>) -> Seq<char> {
    "["@ + json_string_items(items) + "]"@
}

/// A registered location as a JSON object with sorted keys.
pub open spec fn json_location(l: (Seq<char>, Seq<char>, Seq<char>)) -> Seq<char> {
    "{\"displayName\":"@ + json_string(l.2) + ",\"path\":"@ + json_string(l.0) + ",\"providerId\":"@ + json_string(l.1) + "}"@
}

pub open spec fn json_location_items(ls: Seq<(Seq<char>, Seq<char>, Seq<char>)>) -> Seq<char>
    decreases ls.len(),
{
    if ls.len() == 0 {
        Seq::empty()
    } else if ls.len() == 1 {
        json_location(ls[0])
    } else {
        json_location_items(ls.drop_last()) + ","@ + json_location(ls.last())
    }
}

/// The JSON object whose encoded size bounds a session's settings: keys
/// in sorted order, as `serde_json` orders the keys of a map.
pub open spec fn session_settings_json(
    roots: Seq<Seq<char>>,
    patterns: Seq<Seq<char>>,
    policy: Seq<char>,
    exclusions: Seq<Seq<char>>,
    locations: Seq<(Seq<char>, Seq<char>, Seq<char>)>,
    status: Seq<char>,
) -> Seq<char> {
    "{\"cloudDetectionStatus\":"@ + json_string(status) + ",\"cloudPolicy\":"@ + json_string(policy) + ",\"ignorePatterns\":"@
        + json_string_array(patterns) + ",\"manualLocationExclusions\":"@ + json_string_array(exclusions)
        + ",\"registeredCloudLocations\":"@ + "["@ + json_location_items(locations) + "]"@ + ",\"roots\":"@ + json_string_array(roots)
        + "}"@
}

fn push_string_array(out: &mut Vec<char>, items: &Vec<String>)
    ensures
        final(out)@ == old(out)@ + json_string_array(strings_view(items@)),
{
    let ghost start = out@;
    push_str(out, "[");
    let mut i: usize = 0;
    while i < items.len()
        invariant
            i <= items@.len(),
            out@ == start + "["@ + json_string_items(strings_view(items@).subrange(0, i as int)),
        decreases items.len() - i,
    {
        let ghost sub = strings_view(items@).subrange(0, i + 1);
        assert(sub.drop_last() =~= strings_view(items@).subrange(0, i as int));
        assert(sub.last() == items@[i as int]@);
        if i > 0 {
            push_str(out, ",");
        }
        push_json_string(out, items[i].as_str());
        proof {
            if i == 0 {
                assert(json_string_items(strings_view(items@).subrange(0, 0)) =~= Seq::<char>::empty());
            }
        }
        assert(out@ =~= start + "["@ + json_string_items(sub));
        i = i + 1;
    }
    assert(strings_view(items@).subrange(0, items@.len() as int) =~= strings_view(items@));
    push_str(out, "]");
    assert(out@ =~= start + json_string_array(strings_view(items@)));
}

#[verifier::rlimit(30)]
fn push_locations(out: &mut Vec<char>, ls: &Vec<RegisteredCloudLocation>)
    ensures
        final(out)@ == old(out)@ + json_location_items(locations_view(ls@)),
{
    let ghost start = out@;
    let mut i: usize = 0;
    while i < ls.len()
        invariant
            i <= ls@.len(),
            out@ == start + json_location_items(locations_view(ls@).subrange(0, i as int)),
        decreases ls.len() - i,
    {
        let ghost sub = locations_view(ls@).subrange(0, i + 1);
        assert(sub.drop_last() =~= locations_view(ls@).subrange(0, i as int));
        assert(sub.last() == location_view(ls@[i as int]));
        if i > 0 {
            push_str(out, ",");
        }
        push_str(out, "{\"displayName\":");
        push_json_string(out, ls[i].display_name.as_str());
        push_str(out, ",\"path\":");
        push_json_string(out, ls[i].path.as_str());
        push_str(out, ",\"providerId\":");
        push_json_string(out, ls[i].provider_id.as_str());
        push_str(out, "}");
        proof {
            if i == 0 {
                assert(json_location_items(locations_view(ls@).subrange(0, 0)) =~= Seq::<char>::empty());
            }
        }
        assert(out@ =~= start + json_location_items(sub));
        i = i + 1;
    }
    assert(locations_view(ls@).subrange(0, ls@.len() as int) =~= locations_view(ls@));
}

/// The JSON text whose encoded size bounds a session's settings.
pub fn session_settings_text(
    roots: &Vec<String>,
    patterns: &Vec<String>,
    policy: &str,
    exclusions: &Vec<String>,
    locations: &Vec<RegisteredCloudLocation>,
    status: &str,
) -> (r: String)
    ensures
        r@ == session_settings_json(
            strings_view(roots@),
            strings_view(patterns@),
            policy@,
            strings_view(exclusions@),
            locations_view(locations@),
            status@,
        ),
{
    let mut out: Vec<char> = Vec::new();
    push_str(&mut out, "{\"cloudDetectionStatus\":");
    push_json_string(&mut out, status);
    push_str(&mut out, ",\"cloudPolicy\":");
    push_json_string(&mut out, policy);
    push_str(&mut out, ",\"ignorePatterns\":");
    push_string_array(&mut out, patterns);
    push_str(&mut out, ",\"manualLocationExclusions\":");
    push_string_array(&mut out, exclusions);
    push_str(&mut out, ",\"registeredCloudLocations\":");
    push_str(&mut out, "[");
    push_locations(&mut out, locations);
    push_str(&mut out, "]");
    push_str(&mut out, ",\"roots\":");
    push_string_array(&mut out, roots);
    push_str(&mut out, "}");
    assert(out@ =~= session_settings_json(
        strings_view(roots@),
        strings_view(patterns@),
        policy@,
        strings_view(exclusions@),
        locations_view(locations@),
        status@,
    ));
    string_of(&out)
}

/// The roots of a draft once resolved, case-insensitive repeats dropped
/// and nested roots folded into the outer ones.
pub open spec fn finished_roots(d: SessionDraft, canonical: Seq<Option<String>>) -> Seq<Seq<char>> {
    let values = Seq::new(
        d.roots@.len(),
        |k: int| resolved_root(d.roots@[k]@, d.resolvable@[k], option_view(canonical[k])),
    );
    let unique = dedupe_ignore_case(values, values.len() as int);
    non_overlapping_prefix(unique, unique.len() as int)
}

/// Completes a draft with the resolved forms of its roots (`canonical[k]`
/// is consulted only for resolvable roots) and its ignore patterns.
pub fn finish_session(draft: SessionDraft, canonical: Vec<Option<String>>, ignore_patterns: Vec<String>) -> (r: Result<
    ValidatedSession,
    ProtocolFailure,
>)
    requires
        canonical@.len() == draft.roots@.len(),
        draft.resolvable@.len() == draft.roots@.len(),
    ensures
        ignore_patterns@.len() > 512 ==> (r matches Err(f) && f@ =~~= failure(
            "invalid_session"@,
            "A session may contain at most 512 ignore patterns"@,
            field_details("ignorePatterns"@),
        )),
        ignore_patterns@.len() <= 512 ==> (pattern_failure_from(strings_view(ignore_patterns@), 0) matches Some(g) ==> (r matches Err(
            f,
        ) && f@ =~~= g)),
        r matches Ok(s) ==> {
            &&& s.name == draft.name
            &&& strings_view(s.roots@) == finished_roots(draft, canonical@)
            &&& strings_view(s.ignore_patterns@) == dedupe_exact(
                strings_view(ignore_patterns@).map_values(|p: Seq<char>| trim_spec(p)),
                ignore_patterns@.len() as int,
            )
            &&& s.cloud_policy == draft.cloud_policy
            &&& s.manual_location_exclusions == draft.manual_location_exclusions
            &&& s.registered_cloud_locations == draft.registered_cloud_locations
            &&& s.cloud_detection_status == draft.cloud_detection_status
            &&& encode_utf8(session_settings_json(
                strings_view(s.roots@),
                strings_view(s.ignore_patterns@),
                s.cloud_policy@,
                strings_view(s.manual_location_exclusions@),
                locations_view(s.registered_cloud_locations@),
                s.cloud_detection_status@,
            )).len() <= MAXIMUM_FRAME_BYTES / 2
        },
        (ignore_patterns@.len() <= 512 && pattern_failure_from(strings_view(ignore_patterns@), 0) is None) ==> (r is Err ==> (r
            matches Err(f) && f@ =~~= failure(
            "invalid_session"@,
            "The combined session roots and ignore patterns are too large"@,
            Seq::empty(),
        ))),
        (ignore_patterns@.len() <= 512 && pattern_failure_from(strings_view(ignore_patterns@), 0) is None) ==> (r is Ok
            <==> encode_utf8(
            session_settings_json(
                finished_roots(draft, canonical@),
                dedupe_exact(
                    strings_view(ignore_patterns@).map_values(|p: Seq<char>| trim_spec(p)),
                    ignore_patterns@.len() as int,
                ),
                draft.cloud_policy@,
                strings_view(draft.manual_location_exclusions@),
                locations_view(draft.registered_cloud_locations@),
                draft.cloud_detection_status@,
            ),
        ).len() <= MAXIMUM_FRAME_BYTES / 2),
{
    let ghost values = Seq::new(
        draft.roots@.len(),
        |k: int| resolved_root(draft.roots@[k]@, draft.resolvable@[k], option_view(canonical@[k])),
    );
    let mut unique: Vec<String> = Vec::new();
    let mut k: usize = 0;
    while k < draft.roots.len()
        invariant
            k <= draft.roots@.len(),
            canonical@.len() == draft.roots@.len(),
            draft.resolvable@.len() == draft.roots@.len(),
            values == Seq::new(
                draft.roots@.len(),
                |k: int| resolved_root(draft.roots@[k]@, draft.resolvable@[k], option_view(canonical@[k])),
            ),
            strings_view(unique@) == dedupe_ignore_case(values, k as int),
        decreases draft.roots.len() - k,
    {
        let value = match &canonical[k] {
            Some(c) => if draft.resolvable[k] {
                c.clone()
            } else {
                draft.roots[k].clone()
            },
            None => draft.roots[k].clone(),
        };
        assert(value@ == values[k as int]);
        let value_chars = chars_of(value.as_str());
        let ghost before = strings_view(unique@);
        let mut present = false;
        let mut j: usize = 0;
        while j < unique.len()
            invariant
                j <= unique@.len(),
                before == strings_view(unique@),
                value_chars@ == value@,
                present == exists|m: int| 0 <= m < j && eq_ignore_ascii_case_spec(#[trigger] before[m], value@),
            decreases unique.len() - j,
        {
            assert(before[j as int] == unique@[j as int]@);
            if eq_ignore_ascii_case(&chars_of(unique[j].as_str()), &value_chars) {
                present = true;
            }
            j = j + 1;
        }
        if !present {
            unique.push(value);
            assert(strings_view(unique@) =~= before.push(values[k as int]));
        }
        k = k + 1;
    }
    let roots = non_overlapping_directories(unique);
    let patterns = match validate_ignore_patterns(ignore_patterns) {
        Ok(p) => p,
        Err(f) => {
            return Err(f);
        },
    };
    let text = session_settings_text(
        &roots,
        &patterns,
        draft.cloud_policy.as_str(),
        &draft.manual_location_exclusions,
        &draft.registered_cloud_locations,
        draft.cloud_detection_status.as_str(),
    );
    if text.as_str().as_bytes().len() > MAXIMUM_FRAME_BYTES / 2 {
        return Err(ProtocolFailure::new("invalid_session", "The combined session roots and ignore patterns are too large"));
    }
    Ok(
        ValidatedSession {
            name: draft.name,
            roots,
            ignore_patterns: patterns,
            cloud_policy: draft.cloud_policy,
            manual_location_exclusions: draft.manual_location_exclusions,
            registered_cloud_locations: draft.registered_cloud_locations,
            cloud_detection_status: draft.cloud_detection_status,
        },
    )
}

/// Whether a root lies inside one of the excluded locations.
pub open spec fn covered_by(style: PathStyle, root: Seq<char>, exclusions: Seq<Seq<char>>) -> bool {
    exists|j: int| 0 <= j < exclusions.len() && within_spec(style, root, #[trigger] exclusions[j])
}

/// Whether some root can be scanned: it lies inside an excluded location
/// (and is skipped without touching the disk), or it is a directory.
pub open spec fn some_root_scannable(
    style: PathStyle,
    roots: Seq<Seq<char>>,
    exclusions: Seq<Seq<char>>,
    is_directory: Seq<bool>,
) -> bool {
    exists|i: int| 0 <= i < roots.len() && (covered_by(style, #[trigger] roots[i], exclusions) || is_directory[i])
}

/// The details of a failure to start a scan of a session.
pub open spec fn session_field_details(session_id: i64, field: Seq<char>) -> Seq<(Seq<char>, DetailView)> {
    seq![("sessionId"@, DetailView::Integer(session_id as int)), ("field"@, DetailView::Text(field))]
}

/// Why a stored session cannot start a scan, checking in order the cloud
/// policy, the cloud detection status and the roots.
pub open spec fn run_start_failure(
    session_id: i64,
    cloud_policy: Seq<char>,
    cloud_detection_status: Seq<char>,
    roots: Seq<Seq<char>>,
    exclusions: Seq<Seq<char>>,
    is_directory: Seq<bool>,
    style: PathStyle,
) -> Option<FailureView> {
    if !excludes_registered_roots(cloud_policy) {
        Some(
            failure(
                "invalid_session"@,
                "This version enables only the exclude_registered_roots cloud policy"@,
                session_field_details(session_id, "cloudPolicy"@),
            ),
        )
    } else if cloud_detection_status != "complete"@ {
        Some(
            failure(
                "invalid_session"@,
                "Registered cloud location detection must complete before starting this scan"@,
                session_field_details(session_id, "cloudDetectionStatus"@).push(
                    ("status"@, DetailView::Text(cloud_detection_status)),
                ),
            ),
        )
    } else if !some_root_scannable(style, roots, exclusions, is_directory) {
        Some(
            failure(
                "invalid_session"@,
                "At least one session root must be an accessible directory"@,
                session_field_details(session_id, "roots"@),
            ),
        )
    } else {
        None
    }
}

proof fn lemma_scannable_witness(style: PathStyle, rv: Seq<Seq<char>>, ev: Seq<Seq<char>>, d: Seq<bool>, k: int)
    requires
        0 <= k < rv.len(),
        covered_by(style, rv[k], ev) || d[k],
    ensures
        some_root_scannable(style, rv, ev, d),
{
}

fn covered_root(root: &str, exclusions: &Vec<String>, style: PathStyle) -> (r: bool)
    ensures
        r == covered_by(style, root@, strings_view(exclusions@)),
{
    let ghost ex = strings_view(exclusions@);
    let mut j: usize = 0;
    while j < exclusions.len()
        invariant
            j <= exclusions@.len(),
            ex == strings_view(exclusions@),
            forall|t: int| 0 <= t < j ==> !within_spec(style, root@, #[trigger] ex[t]),
        decreases exclusions.len() - j,
    {
        if path_is_within(root, exclusions[j].as_str(), style) {
            assert(within_spec(style, root@, ex[j as int]));
            return true;
        }
        j = j + 1;
    }
    false
}

fn session_failure(session_id: i64, message: &str, field: &str) -> (r: ProtocolFailure)
    ensures
        r@ == failure("invalid_session"@, message@, session_field_details(session_id, field@)),
{
    let f = ProtocolFailure::new("invalid_session", message).with_detail("sessionId", DetailValue::Integer(session_id)).with_detail(
        "field",
        DetailValue::Text(string_from(field)),
    );
    assert(f@.details =~= session_field_details(session_id, field@));
    f
}

/// Whether a stored session may start a scan: its cloud policy must
/// exclude registered cloud roots, cloud detection must have completed,
/// and some root must lie inside an excluded location (the manual
/// exclusions and the registered cloud paths) or be a directory, as
/// `is_directory` says of each root.
pub fn check_run_start(
    session_id: i64,
    cloud_policy: &str,
    cloud_detection_status: &str,
    roots: &Vec<String>,
    exclusions: &Vec<String>,
    is_directory: &Vec<bool>,
    style: PathStyle,
) -> (r: Result<(), ProtocolFailure>)
    requires
        is_directory@.len() == roots@.len(),
    ensures
        match run_start_failure(
            session_id,
            cloud_policy@,
            cloud_detection_status@,
            strings_view(roots@),
            strings_view(exclusions@),
            is_directory@,
            style,
        ) {
            Some(g) => r matches Err(f) && f@ =~~= g,
            None => r is Ok,
        },
{
    proof {
        reveal_strlit("exclude_registered_roots");
        reveal_strlit("complete");
    }
    if !str_equals(cloud_policy, "exclude_registered_roots") {
        return Err(session_failure(session_id, "This version enables only the exclude_registered_roots cloud policy", "cloudPolicy"));
    }
    if !str_equals(cloud_detection_status, "complete") {
        let f = session_failure(
            session_id,
            "Registered cloud location detection must complete before starting this scan",
            "cloudDetectionStatus",
        ).with_detail("status", DetailValue::Text(string_from(cloud_detection_status)));
        return Err(f);
    }
    let ghost rv = strings_view(roots@);
    let ghost ev = strings_view(exclusions@);
    let mut i: usize = 0;
    while i < roots.len()
        invariant
            i <= roots@.len(),
            is_directory@.len() == roots@.len(),
            rv == strings_view(roots@),
            ev == strings_view(exclusions@),
            excludes_registered_roots(cloud_policy@),
            cloud_detection_status@ == "complete"@,
            forall|t: int| 0 <= t < i ==> !(covered_by(style, #[trigger] rv[t], ev) || is_directory@[t]),
        decreases roots.len() - i,
    {
        assert(rv[i as int] == roots@[i as int]@);
        let covered = covered_root(roots[i].as_str(), exclusions, style);
        if covered || is_directory[i] {
            proof {
                lemma_scannable_witness(style, rv, ev, is_directory@, i as int);
            }
            return Ok(());
        }
        assert(!covered_by(style, rv[i as int], ev) && !is_directory@[i as int]);
        assert forall|t: int| 0 <= t < i + 1 implies !(covered_by(style, #[trigger] rv[t], ev) || is_directory@[t]) by {
            if t < i {
                assert(forall|u: int| 0 <= u < i ==> !(covered_by(style, #[trigger] rv[u], ev) || is_directory@[u]));
            }
        }
        i = i + 1;
    }
    Err(session_failure(session_id, "At least one session root must be an accessible directory", "roots"))
}

} // verus!
