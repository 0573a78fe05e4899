use vstd::prelude::*;
use vstd::string::*;

use chrono::Timelike;
use rand::seq::IndexedRandom;

use crate::text::{
    find_char, first_index, last_index, lemma_index_bounds, strs, two_digit_string, two_digits,
};

verus! {

/// The subtype of a content type: what follows the first slash, up to the
/// next slash; none without a slash.
pub open spec fn content_subtype(ct: Seq<char>) -> Option<Seq<char>> {
    let a = first_index(ct, '/');
    if a < 0 {
        None
    } else {
        let rest = ct.subrange(a + 1, ct.len() as int);
        let b = first_index(rest, '/');
        Some(if b < 0 { rest } else { rest.subrange(0, b) })
    }
}

/// The image formats the service answers with and the cache keeps.
pub open spec fn is_image_format(t: Seq<char>) -> bool {
    t == "jpeg"@ || t == "png"@ || t == "gif"@
}

/// How a response of the service is handled.
#[derive(PartialEq, Eq, Structural, Clone, Copy, Debug)]
pub enum ResponseKind {
    /// The body is an image to save.
    Image,
    /// The body explains why no image came.
    RemoteError,
}

/// A response is an image exactly when its content type has an image subtype.
pub open spec fn response_kind(content_type: Option<Seq<char>>) -> ResponseKind {
    match content_type {
        Some(ct) => match content_subtype(ct) {
            Some(t) => if is_image_format(t) {
                ResponseKind::Image
            } else {
                ResponseKind::RemoteError
            },
            None => ResponseKind::RemoteError,
        },
        None => ResponseKind::RemoteError,
    }
}

/// Whether a text names one of the image formats.
pub fn is_image_format_str(t: &str) -> (r: bool)
    ensures
        r == is_image_format(t@),
{
    let s = String::from_str(t);
    s == String::from_str("jpeg") || s == String::from_str("png") || s == String::from_str("gif")
}

/// The subtype of a content type.
pub fn subtype_of(ct: &str) -> (r: Option<&str>)
    ensures
        match r {
            Some(t) => content_subtype(ct@) == Some(t@),
            None => content_subtype(ct@) is None,
        },
{
    let n: usize = ct.unicode_len();
    proof {
        lemma_index_bounds(ct@, '/');
    }
    match find_char(ct, '/').0 {
        None => None,
        Some(a) => {
            let rest = ct.substring_char(a + 1, n);
            proof {
                lemma_index_bounds(rest@, '/');
            }
            match find_char(rest, '/').0 {
                None => Some(rest),
                Some(b) => Some(rest.substring_char(0, b)),
            }
        },
    }
}

/// Decides from the content type whether a response holds an image.
pub fn classify_response(content_type: Option<&str>) -> (r: ResponseKind)
    ensures
        r == response_kind(
            match content_type {
                Some(c) => Some(c@),
                None => None,
            },
        ),
{
    match content_type {
        None => ResponseKind::RemoteError,
        Some(ct) => match subtype_of(ct) {
            Some(t) => if is_image_format_str(t) {
                ResponseKind::Image
            } else {
                ResponseKind::RemoteError
            },
            None => ResponseKind::RemoteError,
        },
    }
}

/// The text of the string field `key` of a body that reads as a JSON
/// document; none when the body is no JSON or has no such string field.
pub uninterp spec fn json_field(body: Seq<char>, key: Seq<char>) -> Option<Seq<char>>;

/// Relies on `serde_json::from_str::<serde_json::Value>` to read the body, then
/// on `Value::get(key)` and `Value::as_str` to take the field's text. The
/// outcome depends on the body and the key alone.
#[verifier::external_body]
fn json_string_field(body: &str, key: &str) -> (r: Option<String>)
    ensures
        match r {
            Some(m) => json_field(body@, key@) == Some(m@),
            None => json_field(body@, key@) is None,
        },
{
    match serde_json::from_str::<serde_json::Value>(body) {
        Ok(v) => v.get(key).and_then(serde_json::Value::as_str).map(String::from),
        Err(_) => None,
    }
}

/// What is reported when the body of an error response cannot be read.
pub open spec fn unreadable_body_text() -> Seq<char> {
    "Couldnt get error"@
}

/// The text reported for an error response: its message when it has one,
/// otherwise the body as it came.
pub fn error_text(body: &str, message: Option<String>) -> (r: String)
    ensures
        r@ == match message {
            Some(m) => m@,
            None => body@,
        },
{
    match message {
        Some(m) => m,
        None => String::from_str(body),
    }
}

/// The text reported for an error response, from its body if it could be
/// read: the body's `message` field when it has one as a string, else the
/// body itself.
pub fn remote_error_text(body: Option<String>) -> (r: String)
    ensures
        r@ == match body {
            Some(b) => match json_field(b@, "message"@) {
                Some(m) => m,
                None => b@,
            },
            None => unreadable_body_text(),
        },
{
    match body {
        Some(b) => {
            let message = json_string_field(b.as_str(), "message");
            error_text(b.as_str(), message)
        },
        None => String::from_str("Couldnt get error"),
    }
}

/// The extension of a file name: what follows its last dot, where that dot
/// is not the name's first character.
pub open spec fn extension(name: Seq<char>) -> Option<Seq<char>> {
    let d = last_index(name, '.');
    if d <= 0 {
        None
    } else {
        Some(name.subrange(d + 1, name.len() as int))
    }
}

/// Whether a file of the cache is an image that can be shown.
pub open spec fn is_cached_image(name: Seq<char>) -> bool {
    match extension(name) {
        Some(e) => is_image_format(e),
        None => false,
    }
}

/// The image files among the names of a directory listing, in their order.
pub open spec fn cached_images(names: Seq<Seq<char>>) -> Seq<Seq<char>>
    decreases names.len(),
{
    if names.len() == 0 {
        Seq::empty()
    } else if is_cached_image(names.last()) {
        cached_images(names.drop_last()).push(names.last())
    } else {
        cached_images(names.drop_last())
    }
}

/// Whether a file name has an image extension.
pub fn is_cached_image_name(name: &str) -> (r: bool)
    ensures
        r == is_cached_image(name@),
{
    let n: usize = name.unicode_len();
    proof {
        lemma_index_bounds(name@, '.');
    }
    match find_char(name, '.').1 {
        None => false,
        Some(d) => if d == 0 {
            false
        } else {
            is_image_format_str(name.substring_char(d + 1, n))
        },
    }
}

/// Keeps the image files of a cache directory listing.
pub fn get_cached_images(entries: &Vec<String>) -> (r: Vec<String>)
    ensures
        strs(r@) == cached_images(strs(entries@)),
{
    let mut images: Vec<String> = Vec::new();
    let mut i: usize = 0;
    while i < entries.len()
        invariant
            i <= entries@.len(),
            strs(images@) == cached_images(strs(entries@.take(i as int))),
        decreases entries@.len() - i,
    {
        proof {
            assert(strs(entries@.take(i as int + 1)).drop_last() =~= strs(entries@.take(i as int)));
            assert(strs(entries@.take(i as int + 1)).last() == entries@[i as int]@);
        }
        if is_cached_image_name(entries[i].as_str()) {
            let name = entries[i].clone();
            proof {
                assert(strs(images@.push(name)) =~= strs(images@).push(name@));
            }
            images.push(name);
        }
        i = i + 1;
    }
    assert(entries@.take(entries@.len() as int) =~= entries@);
    images
}

/// The path of a file of the cache directory.
pub open spec fn in_dir(dir: Seq<char>, name: Seq<char>) -> Seq<char> {
    dir + "/"@ + name
}

/// Writes the path of a file in a directory.
pub fn file_path(dir: &str, name: &str) -> (r: String)
    ensures
        r@ == in_dir(dir@, name@),
{
    let mut r = String::from_str(dir);
    r.append("/");
    r.append(name);
    r
}

/// Relies on rand's `IndexedRandom::choose` with the thread's generator from
/// `rand::rng`: none for an empty list, otherwise one of its elements. The
/// generator panics only when the system's entropy source cannot be read
/// (when it is first seeded or reseeded), whatever the list.
#[verifier::external_body]
fn choose_image(images: &Vec<String>) -> (r: Option<String>)
    ensures
        r is None <==> images@.len() == 0,
        r matches Some(s) ==> exists|i: int| 0 <= i < images@.len() && images@[i]@ == s@,
{
    images.as_slice().choose(&mut rand::rng()).cloned()
}

/// Picks one image of the cache at random and gives its path; none when the
/// listing holds no image.
pub fn pick_cached_image(cache_folder: &str, entries: &Vec<String>) -> (r: Option<String>)
    ensures
        r is None <==> cached_images(strs(entries@)).len() == 0,
        r matches Some(p) ==> exists|i: int|
            0 <= i < cached_images(strs(entries@)).len() && p@ == in_dir(
                cache_folder@,
                #[trigger] cached_images(strs(entries@))[i],
            ),
{
    let images = get_cached_images(entries);
    match choose_image(&images) {
        None => None,
        Some(image) => {
            let path = file_path(cache_folder, image.as_str());
            proof {
                let i = choose|i: int| 0 <= i < images@.len() && images@[i]@ == image@;
                assert(strs(images@)[i] == image@);
            }
            Some(path)
        },
    }
}

/// The name of the file a fetched image is written to, from the time of day.
pub open spec fn transient_name(hour: nat, minute: nat, second: nat) -> Seq<char> {
    "cat_"@ + two_digits(hour) + ":"@ + two_digits(minute) + ":"@ + two_digits(second) + ".png"@
}

/// Names the file of a fetched image after a time of day.
pub fn transient_image_name(hour: u32, minute: u32, second: u32) -> (r: String)
    requires
        hour < 100,
        minute < 100,
        second < 100,
    ensures
        r@ == transient_name(hour as nat, minute as nat, second as nat),
{
    let mut r = String::from_str("cat_");
    r.append(two_digit_string(hour).as_str());
    r.append(":");
    r.append(two_digit_string(minute).as_str());
    r.append(":");
    r.append(two_digit_string(second).as_str());
    r.append(".png");
    r
}

/// Relies on chrono's `Local::now` and its `Timelike` hour, minute and second:
/// the local time of day, hour below 24, minute and second below 60. It
/// panics only when the system clock stands before 1970.
#[verifier::external_body]
fn time_of_day() -> (r: (u32, u32, u32))
    ensures
        r.0 < 24,
        r.1 < 60,
        r.2 < 60,
{
    let now = chrono::Local::now();
    (now.hour(), now.minute(), now.second())
}

/// Names the file of an image fetched now.
pub fn new_transient_name() -> (r: String)
    ensures
        exists|h: nat, m: nat, s: nat| h < 24 && m < 60 && s < 60 && r@ == transient_name(h, m, s),
{
    let (h, m, s) = time_of_day();
    transient_image_name(h, m, s)
}

/// The candidates of an offline run are exactly the names of the listing
/// that carry an image extension.
pub proof fn lemma_cached_images_members(names: Seq<Seq<char>>)
    ensures
        forall|n: Seq<char>|
            #[trigger] cached_images(names).contains(n) <==> names.contains(n) && is_cached_image(n),
    decreases names.len(),
{
    if names.len() > 0 {
        let init = names.drop_last();
        let x = names.last();
        lemma_cached_images_members(init);
        assert forall|n: Seq<char>|
            #[trigger] cached_images(names).contains(n) <==> names.contains(n) && is_cached_image(n)
        by {
            assert(names.contains(n) <==> (init.contains(n) || n == x)) by {
                if names.contains(n) {
                    let k = choose|k: int| 0 <= k < names.len() && names[k] == n;
                    if k < names.len() - 1 {
                        assert(init[k] == n);
                    }
                }
                if init.contains(n) {
                    let j = choose|j: int| 0 <= j < init.len() && init[j] == n;
                    assert(names[j] == n);
                }
                if n == x {
                    assert(names[names.len() - 1] == n);
                }
            }
            if is_cached_image(x) {
                let c = cached_images(init).push(x);
                assert(c.contains(n) <==> (cached_images(init).contains(n) || n == x)) by {
                    if c.contains(n) {
                        let k = choose|k: int| 0 <= k < c.len() && c[k] == n;
                        if k < c.len() - 1 {
                            assert(cached_images(init)[k] == n);
                        }
                    }
                    if cached_images(init).contains(n) {
                        let j = choose|j: int| 0 <= j < cached_images(init).len() && cached_images(init)[j] == n;
                        assert(c[j] == n);
                    }
                    if n == x {
                        assert(c[c.len() - 1] == n);
                    }
                }
            }
        }
    }
}

/// A cache that holds `a.png`, `b.jpeg` and `readme.txt`, listed in any
/// order, offers exactly the two images to an offline run.
pub proof fn lemma_offline_candidates_example(names: Seq<Seq<char>>)
    requires
        names.len() == 3,
        names.contains("a.png"@),
        names.contains("b.jpeg"@),
        names.contains("readme.txt"@),
    ensures
        cached_images(names).len() == 2,
        cached_images(names).contains("a.png"@),
        cached_images(names).contains("b.jpeg"@),
        !cached_images(names).contains("readme.txt"@),
{
    let a = "a.png"@;
    let b = "b.jpeg"@;
    let c = "readme.txt"@;
    reveal_strlit("a.png");
    reveal_strlit("b.jpeg");
    reveal_strlit("readme.txt");
    reveal_strlit("png");
    reveal_strlit("jpeg");
    reveal_strlit("gif");
    reveal_with_fuel(last_index, 11);
    assert(last_index(a, '.') == 1);
    assert(a.subrange(2, 5) =~= "png"@);
    assert(is_cached_image(a));
    assert(last_index(b, '.') == 1);
    assert(b.subrange(2, 6) =~= "jpeg"@);
    assert(is_cached_image(b));
    assert(last_index(c, '.') == 6);
    assert(c.subrange(7, 10) != "png"@ && c.subrange(7, 10) != "gif"@ && c.subrange(7, 10)
        != "jpeg"@) by {
        assert(c.subrange(7, 10)[0] == 't');
    }
    assert(!is_cached_image(c));
    assert(a != b && a != c && b != c) by {
        assert(a.len() != b.len() && a.len() != c.len() && b.len() != c.len());
    }
    let ia = choose|k: int| 0 <= k < names.len() && names[k] == a;
    let ib = choose|k: int| 0 <= k < names.len() && names[k] == b;
    let ic = choose|k: int| 0 <= k < names.len() && names[k] == c;
    assert forall|k: int| 0 <= k < 3 implies (is_cached_image(#[trigger] names[k]) <==> k != ic) by {
        if k == ia {
        } else if k == ib {
        } else {
            assert(k == ic);
        }
    }
    let n2 = names.drop_last();
    let n1 = n2.drop_last();
    let n0 = n1.drop_last();
    assert(n0.len() == 0);
    assert(n1.last() == names[0] && n2.last() == names[1] && names.last() == names[2]);
    assert(cached_images(n0).len() == 0);
    assert(cached_images(n1).len() == if ic == 0 { 0int } else { 1int });
    assert(cached_images(n2).len() == if ic == 0 || ic == 1 { 1int } else { 2int });
    assert(cached_images(names).len() == 2);
    lemma_cached_images_members(names);
    assert(names.contains(a) && names.contains(b) && names.contains(c));
}

} // verus!
