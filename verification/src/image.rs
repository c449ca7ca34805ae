//! The image resource.

use crate::fields::{field, field_at, opt_encoded, opt_field, opt_field_at, put, put_opt};
use crate::json::{json_object, object_new, JsonValue};
use crate::payload::{Encode, Payload};
use crate::error::{lemma_api_error_has_no_id, ApiError, ApiErrorView};
use crate::response::{
    lemma_response_decodes_back, response_encoded, response_of, ResponseDataView, ResponseView,
};
use vstd::prelude::*;

verus! {

/// Data returned for an image.
#[derive(Debug, Clone, PartialEq, Eq)]
pub struct Image {
    pub account_id: Option<String>,
    pub account_url: Option<String>,
    pub ad_type: u32,
    pub ad_url: String,
    pub animated: bool,
    pub bandwidth: u32,
    pub datetime: u32,
    pub description: Option<String>,
    pub favorite: bool,
    pub height: u32,
    pub id: String,
    pub in_gallery: bool,
    pub in_most_viral: bool,
    pub is_ad: bool,
    pub link: String,
    pub nsfw: Option<bool>,
    pub section: Option<String>,
    pub size: u32,
    pub tags: Vec<String>,
    pub title: Option<String>,
    pub views: u32,
    pub vote: Option<String>,
    pub width: u32,
}

/// The mathematical content of an [`Image`].
pub struct ImageView {
    pub account_id: Option<Seq<char>>,
    pub account_url: Option<Seq<char>>,
    pub ad_type: u32,
    pub ad_url: Seq<char>,
    pub animated: bool,
    pub bandwidth: u32,
    pub datetime: u32,
    pub description: Option<Seq<char>>,
    pub favorite: bool,
    pub height: u32,
    pub id: Seq<char>,
    pub in_gallery: bool,
    pub in_most_viral: bool,
    pub is_ad: bool,
    pub link: Seq<char>,
    pub nsfw: Option<bool>,
    pub section: Option<Seq<char>>,
    pub size: u32,
    pub tags: Seq<Seq<char>>,
    pub title: Option<Seq<char>>,
    pub views: u32,
    pub vote: Option<Seq<char>>,
    pub width: u32,
}

impl DeepView for Image {
    type V = ImageView;

    open spec fn deep_view(&self) -> ImageView {
        ImageView {
            account_id: self.account_id.deep_view(),
            account_url: self.account_url.deep_view(),
            ad_type: self.ad_type,
            ad_url: self.ad_url.deep_view(),
            animated: self.animated,
            bandwidth: self.bandwidth,
            datetime: self.datetime,
            description: self.description.deep_view(),
            favorite: self.favorite,
            height: self.height,
            id: self.id.deep_view(),
            in_gallery: self.in_gallery,
            in_most_viral: self.in_most_viral,
            is_ad: self.is_ad,
            link: self.link.deep_view(),
            nsfw: self.nsfw,
            section: self.section.deep_view(),
            size: self.size,
            tags: self.tags.deep_view(),
            title: self.title.deep_view(),
            views: self.views,
            vote: self.vote.deep_view(),
            width: self.width,
        }
    }
}

impl View for Image {
    type V = ImageView;

    open spec fn view(&self) -> ImageView {
        self.deep_view()
    }
}

/// Whether `j` has the shape of an image: an object in which every required
/// member is there with its type, and every optional member is missing,
/// `null` or of its type. Members that an image does not have are ignored.
pub open spec fn is_image(j: JsonValue) -> bool {
    &&& opt_field_at::<String>(j, "account_id"@) is Some
    &&& opt_field_at::<String>(j, "account_url"@) is Some
    &&& field_at::<u32>(j, "ad_type"@) is Some
    &&& field_at::<String>(j, "ad_url"@) is Some
    &&& field_at::<bool>(j, "animated"@) is Some
    &&& field_at::<u32>(j, "bandwidth"@) is Some
    &&& field_at::<u32>(j, "datetime"@) is Some
    &&& opt_field_at::<String>(j, "description"@) is Some
    &&& field_at::<bool>(j, "favorite"@) is Some
    &&& field_at::<u32>(j, "height"@) is Some
    &&& field_at::<String>(j, "id"@) is Some
    &&& field_at::<bool>(j, "in_gallery"@) is Some
    &&& field_at::<bool>(j, "in_most_viral"@) is Some
    &&& field_at::<bool>(j, "is_ad"@) is Some
    &&& field_at::<String>(j, "link"@) is Some
    &&& opt_field_at::<bool>(j, "nsfw"@) is Some
    &&& opt_field_at::<String>(j, "section"@) is Some
    &&& field_at::<u32>(j, "size"@) is Some
    &&& field_at::<Vec<String>>(j, "tags"@) is Some
    &&& opt_field_at::<String>(j, "title"@) is Some
    &&& field_at::<u32>(j, "views"@) is Some
    &&& opt_field_at::<String>(j, "vote"@) is Some
    &&& field_at::<u32>(j, "width"@) is Some
}

/// The image that `j` stands for, member by member.
pub open spec fn image_of(j: JsonValue) -> Option<ImageView> {
    if is_image(j) {
        Some(
            ImageView {
                account_id: opt_field_at::<String>(j, "account_id"@).unwrap(),
                account_url: opt_field_at::<String>(j, "account_url"@).unwrap(),
                ad_type: field_at::<u32>(j, "ad_type"@).unwrap(),
                ad_url: field_at::<String>(j, "ad_url"@).unwrap(),
                animated: field_at::<bool>(j, "animated"@).unwrap(),
                bandwidth: field_at::<u32>(j, "bandwidth"@).unwrap(),
                datetime: field_at::<u32>(j, "datetime"@).unwrap(),
                description: opt_field_at::<String>(j, "description"@).unwrap(),
                favorite: field_at::<bool>(j, "favorite"@).unwrap(),
                height: field_at::<u32>(j, "height"@).unwrap(),
                id: field_at::<String>(j, "id"@).unwrap(),
                in_gallery: field_at::<bool>(j, "in_gallery"@).unwrap(),
                in_most_viral: field_at::<bool>(j, "in_most_viral"@).unwrap(),
                is_ad: field_at::<bool>(j, "is_ad"@).unwrap(),
                link: field_at::<String>(j, "link"@).unwrap(),
                nsfw: opt_field_at::<bool>(j, "nsfw"@).unwrap(),
                section: opt_field_at::<String>(j, "section"@).unwrap(),
                size: field_at::<u32>(j, "size"@).unwrap(),
                tags: field_at::<Vec<String>>(j, "tags"@).unwrap(),
                title: opt_field_at::<String>(j, "title"@).unwrap(),
                views: field_at::<u32>(j, "views"@).unwrap(),
                vote: opt_field_at::<String>(j, "vote"@).unwrap(),
                width: field_at::<u32>(j, "width"@).unwrap(),
            },
        )
    } else {
        None
    }
}

/// The members of the object that stands for `x`: one for each field, an
/// absent optional field as `null`.
pub open spec fn image_members(x: ImageView) -> Map<Seq<char>, JsonValue> {
    Map::empty()
        .insert("account_id"@, opt_encoded::<String>(x.account_id))
        .insert("account_url"@, opt_encoded::<String>(x.account_url))
        .insert("ad_type"@, u32::encoded(x.ad_type))
        .insert("ad_url"@, String::encoded(x.ad_url))
        .insert("animated"@, bool::encoded(x.animated))
        .insert("bandwidth"@, u32::encoded(x.bandwidth))
        .insert("datetime"@, u32::encoded(x.datetime))
        .insert("description"@, opt_encoded::<String>(x.description))
        .insert("favorite"@, bool::encoded(x.favorite))
        .insert("height"@, u32::encoded(x.height))
        .insert("id"@, String::encoded(x.id))
        .insert("in_gallery"@, bool::encoded(x.in_gallery))
        .insert("in_most_viral"@, bool::encoded(x.in_most_viral))
        .insert("is_ad"@, bool::encoded(x.is_ad))
        .insert("link"@, String::encoded(x.link))
        .insert("nsfw"@, opt_encoded::<bool>(x.nsfw))
        .insert("section"@, opt_encoded::<String>(x.section))
        .insert("size"@, u32::encoded(x.size))
        .insert("tags"@, Vec::<String>::encoded(x.tags))
        .insert("title"@, opt_encoded::<String>(x.title))
        .insert("views"@, u32::encoded(x.views))
        .insert("vote"@, opt_encoded::<String>(x.vote))
        .insert("width"@, u32::encoded(x.width))
}

impl Payload for Image {
    open spec fn decoded(j: JsonValue) -> Option<ImageView> {
        image_of(j)
    }

    fn from_json(v: &serde_json::Value) -> (r: Option<Image>) {
        let account_id = opt_field::<String>(v, "account_id")?;
        let account_url = opt_field::<String>(v, "account_url")?;
        let ad_type = field::<u32>(v, "ad_type")?;
        let ad_url = field::<String>(v, "ad_url")?;
        let animated = field::<bool>(v, "animated")?;
        let bandwidth = field::<u32>(v, "bandwidth")?;
        let datetime = field::<u32>(v, "datetime")?;
        let description = opt_field::<String>(v, "description")?;
        let favorite = field::<bool>(v, "favorite")?;
        let height = field::<u32>(v, "height")?;
        let id = field::<String>(v, "id")?;
        let in_gallery = field::<bool>(v, "in_gallery")?;
        let in_most_viral = field::<bool>(v, "in_most_viral")?;
        let is_ad = field::<bool>(v, "is_ad")?;
        let link = field::<String>(v, "link")?;
        let nsfw = opt_field::<bool>(v, "nsfw")?;
        let section = opt_field::<String>(v, "section")?;
        let size = field::<u32>(v, "size")?;
        let tags = field::<Vec<String>>(v, "tags")?;
        let title = opt_field::<String>(v, "title")?;
        let views = field::<u32>(v, "views")?;
        let vote = opt_field::<String>(v, "vote")?;
        let width = field::<u32>(v, "width")?;
        Some(
            Image {
                account_id,
                account_url,
                ad_type,
                ad_url,
                animated,
                bandwidth,
                datetime,
                description,
                favorite,
                height,
                id,
                in_gallery,
                in_most_viral,
                is_ad,
                link,
                nsfw,
                section,
                size,
                tags,
                title,
                views,
                vote,
                width,
            },
        )
    }
}

impl Encode for Image {
    open spec fn encoded(x: ImageView) -> JsonValue {
        JsonValue::Object(image_members(x))
    }

    fn to_json(&self) -> (v: serde_json::Value) {
        let mut o = object_new();
        put_opt::<String>(&mut o, "account_id", &self.account_id);
        put_opt::<String>(&mut o, "account_url", &self.account_url);
        put::<u32>(&mut o, "ad_type", &self.ad_type);
        put::<String>(&mut o, "ad_url", &self.ad_url);
        put::<bool>(&mut o, "animated", &self.animated);
        put::<u32>(&mut o, "bandwidth", &self.bandwidth);
        put::<u32>(&mut o, "datetime", &self.datetime);
        put_opt::<String>(&mut o, "description", &self.description);
        put::<bool>(&mut o, "favorite", &self.favorite);
        put::<u32>(&mut o, "height", &self.height);
        put::<String>(&mut o, "id", &self.id);
        put::<bool>(&mut o, "in_gallery", &self.in_gallery);
        put::<bool>(&mut o, "in_most_viral", &self.in_most_viral);
        put::<bool>(&mut o, "is_ad", &self.is_ad);
        put::<String>(&mut o, "link", &self.link);
        put_opt::<bool>(&mut o, "nsfw", &self.nsfw);
        put_opt::<String>(&mut o, "section", &self.section);
        put::<u32>(&mut o, "size", &self.size);
        put::<Vec<String>>(&mut o, "tags", &self.tags);
        put_opt::<String>(&mut o, "title", &self.title);
        put::<u32>(&mut o, "views", &self.views);
        put_opt::<String>(&mut o, "vote", &self.vote);
        put::<u32>(&mut o, "width", &self.width);
        json_object(o)
    }

    proof fn lemma_decodes_back(x: ImageView) {
        lemma_image_keys();
        Vec::<String>::lemma_decodes_back(x.tags);
        let j = Self::encoded(x);
        let o = image_members(x);
        assert(o.contains_key("account_id"@) && o["account_id"@] == opt_encoded::<String>(x.account_id));
        assert(o.contains_key("account_url"@) && o["account_url"@] == opt_encoded::<String>(x.account_url));
        assert(o.contains_key("ad_type"@) && o["ad_type"@] == u32::encoded(x.ad_type));
        assert(o.contains_key("ad_url"@) && o["ad_url"@] == String::encoded(x.ad_url));
        assert(o.contains_key("animated"@) && o["animated"@] == bool::encoded(x.animated));
        assert(o.contains_key("bandwidth"@) && o["bandwidth"@] == u32::encoded(x.bandwidth));
        assert(o.contains_key("datetime"@) && o["datetime"@] == u32::encoded(x.datetime));
        assert(o.contains_key("description"@) && o["description"@] == opt_encoded::<String>(x.description));
        assert(o.contains_key("favorite"@) && o["favorite"@] == bool::encoded(x.favorite));
        assert(o.contains_key("height"@) && o["height"@] == u32::encoded(x.height));
        assert(o.contains_key("id"@) && o["id"@] == String::encoded(x.id));
        assert(o.contains_key("in_gallery"@) && o["in_gallery"@] == bool::encoded(x.in_gallery));
        assert(o.contains_key("in_most_viral"@) && o["in_most_viral"@] == bool::encoded(x.in_most_viral));
        assert(o.contains_key("is_ad"@) && o["is_ad"@] == bool::encoded(x.is_ad));
        assert(o.contains_key("link"@) && o["link"@] == String::encoded(x.link));
        assert(o.contains_key("nsfw"@) && o["nsfw"@] == opt_encoded::<bool>(x.nsfw));
        assert(o.contains_key("section"@) && o["section"@] == opt_encoded::<String>(x.section));
        assert(o.contains_key("size"@) && o["size"@] == u32::encoded(x.size));
        assert(o.contains_key("tags"@) && o["tags"@] == Vec::<String>::encoded(x.tags));
        assert(o.contains_key("title"@) && o["title"@] == opt_encoded::<String>(x.title));
        assert(o.contains_key("views"@) && o["views"@] == u32::encoded(x.views));
        assert(o.contains_key("vote"@) && o["vote"@] == opt_encoded::<String>(x.vote));
        assert(o.contains_key("width"@) && o["width"@] == u32::encoded(x.width));
        assert(is_image(j));
    }
}

/// The keys of the members differ from one another: each is told from the
/// others by its length and its first character.
pub proof fn lemma_image_keys()
    ensures
        "account_id"@.len() == 10 && "account_id"@[0] == 'a',
        "account_url"@.len() == 11 && "account_url"@[0] == 'a',
        "ad_type"@.len() == 7 && "ad_type"@[0] == 'a',
        "ad_url"@.len() == 6 && "ad_url"@[0] == 'a',
        "animated"@.len() == 8 && "animated"@[0] == 'a',
        "bandwidth"@.len() == 9 && "bandwidth"@[0] == 'b',
        "datetime"@.len() == 8 && "datetime"@[0] == 'd',
        "description"@.len() == 11 && "description"@[0] == 'd',
        "favorite"@.len() == 8 && "favorite"@[0] == 'f',
        "height"@.len() == 6 && "height"@[0] == 'h',
        "id"@.len() == 2 && "id"@[0] == 'i',
        "in_gallery"@.len() == 10 && "in_gallery"@[0] == 'i',
        "in_most_viral"@.len() == 13 && "in_most_viral"@[0] == 'i',
        "is_ad"@.len() == 5 && "is_ad"@[0] == 'i',
        "link"@.len() == 4 && "link"@[0] == 'l',
        "nsfw"@.len() == 4 && "nsfw"@[0] == 'n',
        "section"@.len() == 7 && "section"@[0] == 's',
        "size"@.len() == 4 && "size"@[0] == 's',
        "tags"@.len() == 4 && "tags"@[0] == 't',
        "title"@.len() == 5 && "title"@[0] == 't',
        "views"@.len() == 5 && "views"@[0] == 'v',
        "vote"@.len() == 4 && "vote"@[0] == 'v',
        "width"@.len() == 5 && "width"@[0] == 'w',
{
    reveal_strlit("account_id");
    reveal_strlit("account_url");
    reveal_strlit("ad_type");
    reveal_strlit("ad_url");
    reveal_strlit("animated");
    reveal_strlit("bandwidth");
    reveal_strlit("datetime");
    reveal_strlit("description");
    reveal_strlit("favorite");
    reveal_strlit("height");
    reveal_strlit("id");
    reveal_strlit("in_gallery");
    reveal_strlit("in_most_viral");
    reveal_strlit("is_ad");
    reveal_strlit("link");
    reveal_strlit("nsfw");
    reveal_strlit("section");
    reveal_strlit("size");
    reveal_strlit("tags");
    reveal_strlit("title");
    reveal_strlit("views");
    reveal_strlit("vote");
    reveal_strlit("width");
}

} // verus!
