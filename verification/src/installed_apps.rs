//! The list of installed applications that quick actions can launch, and
//! their icons.

use vstd::prelude::*;
use vstd::multiset::Multiset;
use crate::data_url::{base64_text, png_data_url};
use crate::peer_views::{in_key_order, sort_by_listing_key, ListingKey};
use crate::text::{chars_equal, chars_of, contains_string, extend_chars, string_from_chars, strings_view, trim, trim_chars};

verus! {

/// An application that a scan of the system found.
#[derive(Debug, Clone)]
pub struct ScannedApp {
    pub name: String,
    pub path: String,
    pub identifier: Option<String>,
    pub version: Option<String>,
}

/// An installed application as the action editor lists it.
#[derive(Debug, Clone)]
pub struct InstalledAppView {
    pub name: String,
    pub path: String,
    pub identifier: Option<String>,
    pub version: Option<String>,
    pub icon_data_url: Option<String>,
}

/// `s` in lower case by Unicode's rules, as `str::to_lowercase` gives it.
pub uninterp spec fn unicode_lower(s: Seq<char>) -> Seq<char>;

/// `str::to_lowercase` of std: `s` with each character replaced by its
/// lower-case mapping under Unicode. Its result is named.
#[verifier::external_body]
fn to_lowercase(s: &str) -> (r: String)
    ensures
        r@ == unicode_lower(s@),
{
    s.to_lowercase()
}

/// Whether a scanned application is listed: it has a name and a path.
pub open spec fn listable(app: ScannedApp) -> bool {
    trim(app.name@).len() > 0 && app.path@.len() > 0
}

/// What makes two listed applications the same one: name and path, in
/// lower case, joined by a line break.
pub open spec fn app_identity(app: ScannedApp) -> Seq<char> {
    unicode_lower(trim(app.name@)) + "\n"@ + unicode_lower(app.path@)
}

/// The identities of the listable applications of `s`.
pub open spec fn identities(s: Seq<ScannedApp>) -> Set<Seq<char>> {
    Set::new(|k: Seq<char>| exists|i: int| 0 <= i < s.len() && listable(s[i]) && app_identity(s[i]) == k)
}

/// The listable applications of `s`, each identity once (its first
/// occurrence), with trimmed names.
pub open spec fn distinct_apps(s: Seq<ScannedApp>) -> Seq<(Seq<char>, Seq<char>, Option<String>, Option<String>)>
    decreases s.len(),
{
    if s.len() == 0 {
        Seq::empty()
    } else {
        let rest = distinct_apps(s.drop_last());
        let a = s.last();
        if listable(a) && !identities(s.drop_last()).contains(app_identity(a)) {
            rest.push((trim(a.name@), a.path@, a.identifier, a.version))
        } else {
            rest
        }
    }
}

/// A listed application together with its name in lower case, which orders
/// the list.
struct SortEntry {
    lower_name: String,
    view: InstalledAppView,
}

impl ListingKey for SortEntry {
    closed spec fn listing_key(&self) -> (Seq<char>, Seq<char>) {
        (self.lower_name@, self.view.path@)
    }

    fn key_chars(&self) -> (r: (Vec<char>, Vec<char>)) {
        (chars_of(self.lower_name.as_str()), chars_of(self.view.path.as_str()))
    }
}

/// The plain values of a view.
pub open spec fn view_fields(v: InstalledAppView) -> (Seq<char>, Seq<char>, Option<String>, Option<String>) {
    (v.name@, v.path@, v.identifier, v.version)
}

/// The installed applications as the action editor lists them: those with
/// a name and a path, the first of each name and path (compared in lower
/// case), with trimmed names and no icon yet, in order of name in lower
/// case, then path.
pub fn installed_app_views(apps: Vec<ScannedApp>) -> (out: Vec<InstalledAppView>)
    ensures
        out@.map_values(|v: InstalledAppView| view_fields(v)).to_multiset() == distinct_apps(apps@).to_multiset(),
        forall|i: int| 0 <= i < out@.len() ==> (#[trigger] out@[i]).icon_data_url is None,
        forall|i: int, j: int|
            0 <= i < j < out@.len() ==> !crate::peer_views::key_before(
                (unicode_lower((#[trigger] out@[j]).name@), out@[j].path@),
                (unicode_lower((#[trigger] out@[i]).name@), out@[i].path@),
            ),
{
    let mut rest = apps;
    let ghost all = rest@;
    let total = rest.len();
    let mut taken: usize = 0;
    let mut seen: Vec<String> = Vec::new();
    let mut entries: Vec<SortEntry> = Vec::new();
    while rest.len() > 0
        invariant
            all.len() == total,
            taken + rest@.len() == total,
            rest@ == all.skip(taken as int),
            strings_view(seen@).to_set() == identities(all.take(taken as int)),
            entries@.map_values(|e: SortEntry| view_fields(e.view)) == distinct_apps(all.take(taken as int)),
            forall|i: int| 0 <= i < entries@.len() ==> (#[trigger] entries@[i]).lower_name@ == unicode_lower(entries@[i].view.name@)
                && entries@[i].view.icon_data_url is None,
        decreases rest@.len(),
    {
        let a = rest.remove(0);
        let ghost ga = a;
        assert(a == all[taken as int]);
        let ghost prefix = all.take(taken as int);
        assert(all.take(taken + 1) =~= prefix.push(a));
        assert(all.take(taken + 1).drop_last() =~= prefix);
        let name = trim_chars(&chars_of(a.name.as_str()));
        let ghost before_seen = strings_view(seen@);
        if name.len() > 0 && a.path.as_str().unicode_len() > 0 {
            let trimmed = string_from_chars(&name);
            let lower_name = to_lowercase(trimmed.as_str());
            let mut key = chars_of(lower_name.as_str());
            extend_chars(&mut key, &chars_of("\n"));
            extend_chars(&mut key, &chars_of(to_lowercase(a.path.as_str()).as_str()));
            let key = string_from_chars(&key);
            assert(key@ == app_identity(a));
            if !contains_string(&seen, &key) {
                seen.push(key);
                let ghost old_entries = entries@;
                entries.push(SortEntry {
                    lower_name,
                    view: InstalledAppView { name: trimmed, path: a.path, identifier: a.identifier, version: a.version, icon_data_url: None },
                });
                proof {
                    assert(strings_view(seen@) =~= before_seen.push(app_identity(a)));
                    before_seen.lemma_push_to_set_commute(app_identity(a));
                    lemma_identities_push(prefix, a);
                    assert(entries@.map_values(|e: SortEntry| view_fields(e.view)) =~= old_entries.map_values(
                        |e: SortEntry| view_fields(e.view),
                    ).push((trim(ga.name@), ga.path@, ga.identifier, ga.version)));
                }
            } else {
                proof {
                    lemma_identities_push(prefix, a);
                    assert(identities(prefix).insert(app_identity(a)) =~= identities(prefix));
                }
            }
        } else {
            proof {
                lemma_identities_push(prefix, a);
            }
        }
        taken = taken + 1;
        assert(rest@ =~= all.skip(taken as int));
    }
    assert(all.take(taken as int) =~= all);
    let ghost unsorted = entries@;
    let sorted = sort_by_listing_key(entries);
    proof {
        assert forall|i: int| 0 <= i < sorted@.len() implies (#[trigger] sorted@[i]).lower_name@ == unicode_lower(
            sorted@[i].view.name@,
        ) && sorted@[i].view.icon_data_url is None by {
            lemma_member_of_multiset(sorted@, unsorted, i);
        }
    }
    let ghost sorted_view = sorted@;
    let mut out: Vec<InstalledAppView> = Vec::new();
    let mut rest_sorted = sorted;
    while rest_sorted.len() > 0
        invariant
            out@.len() + rest_sorted@.len() == sorted_view.len(),
            rest_sorted@ == sorted_view.skip(out@.len() as int),
            forall|i: int| 0 <= i < out@.len() ==> #[trigger] out@[i] == sorted_view[i].view,
        decreases rest_sorted@.len(),
    {
        let ghost k = out@.len() as int;
        let e = rest_sorted.remove(0);
        assert(e == sorted_view[k]);
        out.push(e.view);
        assert(rest_sorted@ =~= sorted_view.skip(k + 1));
    }
    proof {
        let g = |e: SortEntry| view_fields(e.view);
        assert(out@.map_values(|v: InstalledAppView| view_fields(v)) =~= sorted_view.map_values(g));
        lemma_map_multiset(sorted_view, unsorted, g);
        assert forall|i: int, j: int| 0 <= i < j < out@.len() implies !crate::peer_views::key_before(
            (unicode_lower((#[trigger] out@[j]).name@), out@[j].path@),
            (unicode_lower((#[trigger] out@[i]).name@), out@[i].path@),
        ) by {
            assert(sorted_view[i].listing_key() == (unicode_lower(out@[i].name@), out@[i].path@));
            assert(sorted_view[j].listing_key() == (unicode_lower(out@[j].name@), out@[j].path@));
        }
    }
    out
}

proof fn lemma_member_of_multiset<A>(a: Seq<A>, b: Seq<A>, i: int)
    requires
        a.to_multiset() == b.to_multiset(),
        0 <= i < a.len(),
    ensures
        exists|j: int| 0 <= j < b.len() && b[j] == a[i],
{
    broadcast use vstd::seq_lib::group_to_multiset_ensures;
    assert(a.contains(a[i]));
    assert(a.to_multiset().contains(a[i]));
    assert(b.contains(a[i]));
}

proof fn lemma_map_multiset<A, B>(a: Seq<A>, b: Seq<A>, f: spec_fn(A) -> B)
    requires
        a.to_multiset() == b.to_multiset(),
    ensures
        a.map_values(f).to_multiset() == b.map_values(f).to_multiset(),
    decreases a.len(),
{
    broadcast use vstd::seq_lib::group_to_multiset_ensures, vstd::multiset::group_multiset_axioms;
    if a.len() == 0 {
        assert(b.to_multiset().len() == 0);
        assert(b.len() == 0);
        assert(a.map_values(f) =~= Seq::<B>::empty());
        assert(b.map_values(f) =~= Seq::<B>::empty());
    } else {
        let x = a.last();
        assert(a.contains(x));
        assert(a.to_multiset().contains(x));
        assert(b.contains(x));
        let j = choose|j: int| 0 <= j < b.len() && b[j] == x;
        let a2 = a.drop_last();
        let b2 = b.remove(j);
        assert(a =~= a2.push(x));
        assert(a2.to_multiset() =~= a.to_multiset().remove(x));
        assert(b2.to_multiset() =~= b.to_multiset().remove(x));
        lemma_map_multiset(a2, b2, f);
        assert(a.map_values(f) =~= a2.map_values(f).push(f(x)));
        assert(b2.map_values(f) =~= b.map_values(f).remove(j));
        assert(b.map_values(f)[j] == f(x));
        assert(b.map_values(f).to_multiset() =~= b2.map_values(f).to_multiset().insert(f(x))) by {
            let m = b.map_values(f);
            assert(m.remove(j).to_multiset() == m.to_multiset().remove(m[j]));
            assert(m.to_multiset().count(f(x)) > 0) by {
                assert(m.contains(f(x)));
            }
        }
    }
}

proof fn lemma_identities_push(s: Seq<ScannedApp>, a: ScannedApp)
    ensures
        identities(s.push(a)) == if listable(a) { identities(s).insert(app_identity(a)) } else { identities(s) },
{
    assert forall|k: Seq<char>| #[trigger] identities(s.push(a)).contains(k) <==> (if listable(a) {
        identities(s).insert(app_identity(a))
    } else {
        identities(s)
    }).contains(k) by {
        if identities(s.push(a)).contains(k) {
            let i = choose|i: int| 0 <= i < s.push(a).len() && listable(s.push(a)[i]) && app_identity(s.push(a)[i]) == k;
            if i < s.len() {
                assert(s[i] == s.push(a)[i]);
            }
        }
        if identities(s).contains(k) {
            let i = choose|i: int| 0 <= i < s.len() && listable(s[i]) && app_identity(s[i]) == k;
            assert(s.push(a)[i] == s[i]);
        }
        if listable(a) && k == app_identity(a) {
            assert(s.push(a)[s.len() as int] == a);
        }
    }
    assert(identities(s.push(a)) =~= if listable(a) { identities(s).insert(app_identity(a)) } else { identities(s) });
}

/// Checks that icons are asked for an application of the list only.
pub fn check_known_app(apps: &Vec<InstalledAppView>, path: &str) -> (r: Result<(), String>)
    ensures
        r is Ok <==> exists|i: int| 0 <= i < apps@.len() && (#[trigger] apps@[i]).path@ == path@,
        r matches Err(e) ==> e@ == "application is not in the installed application list"@,
{
    let p = chars_of(path);
    let mut i: usize = 0;
    while i < apps.len()
        invariant
            i <= apps@.len(),
            p@ == path@,
            forall|j: int| 0 <= j < i ==> (#[trigger] apps@[j]).path@ != path@,
        decreases apps@.len() - i,
    {
        if chars_equal(&chars_of(apps[i].path.as_str()), &p) {
            return Ok(());
        }
        i = i + 1;
    }
    Err("application is not in the installed application list".to_string())
}

/// The PNG of `width` by `height` RGBA pixels from `pixels` (four bytes for
/// each pixel), when the encoder succeeds.
pub uninterp spec fn rgba_png(width: u32, height: u32, pixels: Seq<u8>) -> Option<Seq<u8>>;

/// Calls of the image crate: `RgbaImage::from_raw(width, height, pixels)`
/// and `PngEncoder::write_image` with RGBA8. The encoder panics unless the
/// buffer has exactly four bytes for each pixel, so that is required.
/// Nothing comes back when the encoder fails. The result is named.
#[verifier::external_body]
fn encode_rgba_png(width: u32, height: u32, pixels: &[u8]) -> (r: Option<Vec<u8>>)
    requires
        pixels@.len() == 4 * (width as int) * (height as int),
    ensures
        match r {
            Some(v) => rgba_png(width, height, pixels@) == Some(v@),
            None => rgba_png(width, height, pixels@) is None,
        },
{
    let image = image::RgbaImage::from_raw(width, height, pixels.to_vec())?;
    let mut png = std::io::Cursor::new(Vec::new());
    image::ImageEncoder::write_image(image::codecs::png::PngEncoder::new(&mut png), image.as_raw(), image.width(), image.height(), image::ExtendedColorType::Rgba8).ok()?;
    Some(png.into_inner())
}

/// The icon of an application, as a `data:` URL of a PNG: none when the
/// buffer holds fewer than four bytes for each pixel or the encoder fails.
/// A buffer longer than the pixels is not accepted by the encoder.
pub fn icon_data_url(width: u32, height: u32, pixels: &[u8]) -> (r: Option<String>)
    requires
        pixels@.len() <= 4 * (width as int) * (height as int),
    ensures
        pixels@.len() < 4 * (width as int) * (height as int) ==> r is None,
        pixels@.len() == 4 * (width as int) * (height as int) ==> match rgba_png(width, height, pixels@) {
            Some(png) => r matches Some(s) && s@ == "data:image/png;base64,"@ + base64_text(png),
            None => r is None,
        },
{
    let w: u128 = width as u128;
    let h: u128 = height as u128;
    assert(w * h <= 0xffff_ffff * 0xffff_ffff) by (nonlinear_arith)
        requires
            w <= 0xffff_ffff,
            h <= 0xffff_ffff,
    ;
    let needed: u128 = 4 * (w * h);
    assert(needed == 4 * (width as int) * (height as int)) by (nonlinear_arith)
        requires
            needed == 4 * (w * h),
            w == width,
            h == height,
    ;
    if (pixels.len() as u128) < needed {
        return None;
    }
    match encode_rgba_png(width, height, pixels) {
        Some(png) => Some(png_data_url(&png)),
        None => None,
    }
}

} // verus!
