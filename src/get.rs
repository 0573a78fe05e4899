use vstd::prelude::*;
use vstd::string::*;

use crate::config::{
    image_type_name, kind_name, Config, Dimensions, Filter, ImageType, Kind, Rgb, Says,
};
use crate::text::{concat, decimal, decimal_string, join, join_strings, strs};

verus! {

/// The service endpoint that answers with a generated cat picture.
pub open spec fn cat_endpoint() -> Seq<char> {
    "https://cataas.com/cat"@
}

/// One query parameter, `key=value`.
pub open spec fn param(key: Seq<char>, value: Seq<char>) -> Seq<char> {
    key + "="@ + value
}

/// The parameter for an optional number: none when it is absent.
pub open spec fn number_param(key: Seq<char>, v: Option<u8>) -> Seq<Seq<char>> {
    match v {
        Some(x) => seq![param(key, decimal(x as nat))],
        None => Seq::empty(),
    }
}

/// The parameter for an optional text: none when it is absent.
pub open spec fn text_param(key: Seq<char>, v: Option<String>) -> Seq<Seq<char>> {
    match v {
        Some(t) => seq![param(key, t@)],
        None => Seq::empty(),
    }
}

/// The path segment of the tags: the tags joined by commas after a slash,
/// and nothing when there are none.
pub open spec fn tag_parts(tags: Option<Vec<String>>) -> Seq<Seq<char>> {
    match tags {
        Some(t) => if t@.len() > 0 {
            seq!["/"@ + join(strs(t@), ","@)]
        } else {
            Seq::empty()
        },
        None => Seq::empty(),
    }
}

/// The path segment of the caption. The text goes in as it is, not escaped.
/// Segments are joined to each other by slashes but follow the endpoint
/// directly, so a caption without tags reads `.../catsays/<text>`.
pub open spec fn caption_parts(says: Option<Says>) -> Seq<Seq<char>> {
    match says {
        Some(s) => seq!["says/"@ + s.sentence@],
        None => Seq::empty(),
    }
}

/// The path segments of a request, in order.
pub open spec fn path_parts(c: Config) -> Seq<Seq<char>> {
    tag_parts(c.tags) + caption_parts(c.says)
}

/// The font parameters of the caption.
pub open spec fn caption_params(says: Option<Says>) -> Seq<Seq<char>> {
    match says {
        Some(s) => number_param("fontSize"@, s.size) + text_param("fontColor"@, s.color),
        None => Seq::empty(),
    }
}

/// The channel parameters of a custom filter.
pub open spec fn rgb_params(rgb: Option<Rgb>) -> Seq<Seq<char>> {
    match rgb {
        Some(c) => number_param("r"@, c.r) + number_param("g"@, c.g) + number_param("b"@, c.b),
        None => Seq::empty(),
    }
}

/// The adjustments that only a custom filter sends.
pub open spec fn custom_params(f: Filter) -> Seq<Seq<char>> {
    text_param("brightness"@, f.brightness) + text_param("lightness"@, f.lightness)
        + text_param("saturation"@, f.saturation) + text_param("hue"@, f.hue) + rgb_params(f.rgb)
}

/// The filter parameters: the kind's name, then the adjustments when the
/// kind is custom; nothing without a kind.
pub open spec fn filter_params(filter: Option<Filter>) -> Seq<Seq<char>> {
    match filter {
        Some(f) => match f.kind {
            Some(k) => seq![param("filter"@, kind_name(k))] + if k == Kind::Custom {
                custom_params(f)
            } else {
                Seq::empty()
            },
            None => Seq::empty(),
        },
        None => Seq::empty(),
    }
}

/// The parameter of the image type.
pub open spec fn type_params(t: Option<ImageType>) -> Seq<Seq<char>> {
    match t {
        Some(x) => seq![param("type"@, image_type_name(x))],
        None => Seq::empty(),
    }
}

/// Height and width, sent together as one unit.
pub open spec fn dimension_params(d: Option<Dimensions>) -> Seq<Seq<char>> {
    match d {
        Some(x) => seq![
            param("height"@, decimal(x.height as nat)) + "&"@ + param("width"@, decimal(x.width as nat))
        ],
        None => Seq::empty(),
    }
}

/// The query parameters of a request, in order.
pub open spec fn query_params(c: Config) -> Seq<Seq<char>> {
    caption_params(c.says) + filter_params(c.filter) + type_params(c.image_type)
        + dimension_params(c.dimensions)
}

/// The request for a configuration: the endpoint, the path segments joined by
/// slashes, a question mark (also when no parameter follows), and the
/// parameters joined by ampersands. The path segments follow the endpoint
/// with no slash of their own (the tag segment starts with one, the caption
/// segment does not), and the caption text is not escaped.
pub open spec fn request_url(c: Config) -> Seq<char> {
    cat_endpoint() + join(path_parts(c), "/"@) + "?"@ + join(query_params(c), "&"@)
}

/// A value of a custom filter field, as it is sent.
pub enum CustomValue {
    Text(Option<String>),
    U8(Option<u8>),
}

/// The parameters a custom filter field adds: one when its value is present.
pub open spec fn custom_value_params(key: Seq<char>, value: Option<CustomValue>) -> Seq<Seq<char>> {
    match value {
        Some(CustomValue::Text(t)) => text_param(key, t),
        Some(CustomValue::U8(n)) => number_param(key, n),
        None => Seq::empty(),
    }
}

/// What a custom filter value reads as; an absent value reads as nothing.
pub open spec fn custom_value_text(v: CustomValue) -> Seq<char> {
    match v {
        CustomValue::Text(Some(t)) => t@,
        CustomValue::U8(Some(n)) => decimal(n as nat),
        _ => Seq::empty(),
    }
}

impl CustomValue {
    /// The text of the value as it is sent.
    pub fn to_string(&self) -> (r: String)
        ensures
            r@ == custom_value_text(*self),
    {
        match self {
            CustomValue::Text(Some(t)) => t.clone(),
            CustomValue::U8(Some(n)) => decimal_string(*n as u32),
            _ => String::new(),
        }
    }
}

proof fn lemma_strs_push(v: Seq<String>, s: String)
    ensures
        strs(v.push(s)) == strs(v) + seq![s@],
{
    assert(strs(v.push(s)) =~= strs(v) + seq![s@]);
}

/// Appends one string to a list of parts.
fn push_part(parts: &mut Vec<String>, s: String)
    ensures
        strs(final(parts)@) == strs(old(parts)@) + seq![s@],
{
    proof {
        lemma_strs_push(parts@, s);
    }
    parts.push(s);
}

/// Writes `key=value`.
fn key_value(key: &str, value: &str) -> (r: String)
    ensures
        r@ == param(key@, value@),
{
    let mut r = String::from_str(key);
    r.append("=");
    r.append(value);
    r
}

/// Appends the parameter of one custom filter field when its value is present.
pub fn custom_filter_params(params: &mut Vec<String>, key: &str, value: Option<CustomValue>)
    ensures
        strs(final(params)@) == strs(old(params)@) + custom_value_params(key@, value),
{
    match value {
        Some(CustomValue::Text(Some(t))) => push_part(params, key_value(key, t.as_str())),
        Some(CustomValue::U8(Some(n))) => {
            let s = decimal_string(n as u32);
            push_part(params, key_value(key, s.as_str()));
        },
        _ => {
            assert(strs(params@) =~= strs(params@) + custom_value_params(key@, value));
        },
    }
}

/// Appends the path segment of the tags.
fn push_tags(path: &mut Vec<String>, tags: &Option<Vec<String>>)
    ensures
        strs(final(path)@) == strs(old(path)@) + tag_parts(*tags),
{
    if let Some(tags) = tags {
        if tags.len() > 0 {
            let joined = join_strings(tags, ",");
            push_part(path, concat("/", joined.as_str()));
            return;
        }
    }
    assert(strs(path@) =~= strs(path@) + tag_parts(*tags));
}

/// Appends the path segment and the font parameters of the caption.
fn push_caption(path: &mut Vec<String>, params: &mut Vec<String>, says: &Option<Says>)
    ensures
        strs(final(path)@) == strs(old(path)@) + caption_parts(*says),
        strs(final(params)@) == strs(old(params)@) + caption_params(*says),
{
    let ghost start = strs(params@);
    if let Some(says) = says {
        push_part(path, concat("says/", says.sentence.as_str()));
        if let Some(size) = says.size {
            let s = decimal_string(size as u32);
            push_part(params, key_value("fontSize", s.as_str()));
        }
        assert(strs(params@) =~= start + number_param("fontSize"@, says.size));
        let ghost mid = strs(params@);
        if let Some(color) = &says.color {
            push_part(params, key_value("fontColor", color.as_str()));
        }
        assert(strs(params@) =~= mid + text_param("fontColor"@, says.color));
    }
    assert(strs(path@) =~= strs(old(path)@) + caption_parts(*says));
    assert(strs(params@) =~= start + caption_params(*says));
}

/// A text field of a custom filter as a value to send.
fn text_value(v: &Option<String>) -> (r: CustomValue)
    ensures
        r == CustomValue::Text(*v),
{
    match v {
        Some(t) => CustomValue::Text(Some(t.clone())),
        None => CustomValue::Text(None),
    }
}

/// Appends the adjustments of a custom filter.
fn push_custom(params: &mut Vec<String>, filter: &Filter)
    ensures
        strs(final(params)@) == strs(old(params)@) + custom_params(*filter),
{
    let ghost s0 = strs(params@);
    custom_filter_params(params, "brightness", Some(text_value(&filter.brightness)));
    custom_filter_params(params, "lightness", Some(text_value(&filter.lightness)));
    custom_filter_params(params, "saturation", Some(text_value(&filter.saturation)));
    custom_filter_params(params, "hue", Some(text_value(&filter.hue)));
    let ghost s4 = strs(params@);
    if let Some(rgb) = &filter.rgb {
        custom_filter_params(params, "r", Some(CustomValue::U8(rgb.r)));
        custom_filter_params(params, "g", Some(CustomValue::U8(rgb.g)));
        custom_filter_params(params, "b", Some(CustomValue::U8(rgb.b)));
        assert(strs(params@) =~= s4 + rgb_params(filter.rgb));
    } else {
        assert(strs(params@) =~= s4 + rgb_params(filter.rgb));
    }
    assert(strs(params@) =~= s0 + custom_params(*filter));
}

/// Appends the filter parameters.
fn push_filter(params: &mut Vec<String>, filter: &Option<Filter>)
    ensures
        strs(final(params)@) == strs(old(params)@) + filter_params(*filter),
{
    let ghost s0 = strs(params@);
    if let Some(filter) = filter {
        if let Some(kind) = &filter.kind {
            let name = kind.to_string();
            push_part(params, key_value("filter", name.as_str()));
            let ghost s1 = strs(params@);
            if kind.is_custom() {
                push_custom(params, filter);
            }
            assert(strs(params@) =~= s1 + if *kind == Kind::Custom {
                custom_params(*filter)
            } else {
                Seq::empty()
            });
        }
    }
    assert(strs(params@) =~= s0 + filter_params(*filter));
}

/// Appends the parameter of the image type.
fn push_type(params: &mut Vec<String>, image_type: &Option<ImageType>)
    ensures
        strs(final(params)@) == strs(old(params)@) + type_params(*image_type),
{
    if let Some(image_type) = image_type {
        let name = image_type.to_string();
        push_part(params, key_value("type", name.as_str()));
    } else {
        assert(strs(params@) =~= strs(params@) + type_params(*image_type));
    }
}

/// Appends the height and width as one unit.
fn push_dimensions(params: &mut Vec<String>, dimensions: &Option<Dimensions>)
    ensures
        strs(final(params)@) == strs(old(params)@) + dimension_params(*dimensions),
{
    if let Some(dimensions) = dimensions {
        let h = decimal_string(dimensions.height);
        let w = decimal_string(dimensions.width);
        let mut s = key_value("height", h.as_str());
        s.append("&");
        let wp = key_value("width", w.as_str());
        s.append(wp.as_str());
        push_part(params, s);
    } else {
        assert(strs(params@) =~= strs(params@) + dimension_params(*dimensions));
    }
}

/// Builds the request for a configuration.
pub fn get_url(config: &Config) -> (r: String)
    ensures
        r@ == request_url(*config),
{
    let mut params: Vec<String> = Vec::new();
    let mut path: Vec<String> = Vec::new();

    push_tags(&mut path, &config.tags);
    push_caption(&mut path, &mut params, &config.says);
    push_filter(&mut params, &config.filter);
    push_type(&mut params, &config.image_type);
    push_dimensions(&mut params, &config.dimensions);
    assert(strs(path@) =~= path_parts(*config));
    assert(strs(params@) =~= query_params(*config));

    let mut url = String::from_str("https://cataas.com/cat");
    let p = join_strings(&path, "/");
    url.append(p.as_str());
    url.append("?");
    let q = join_strings(&params, "&");
    url.append(q.as_str());
    url
}

/// Building the request is deterministic: equal configurations give the
/// same request.
pub proof fn lemma_get_url_deterministic(a: Config, b: Config)
    requires
        a == b,
    ensures
        request_url(a) == request_url(b),
{
}

} // verus!
