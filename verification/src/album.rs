//! The album resource.

use crate::fields::{field, field_at, opt_encoded, opt_field, opt_field_at, put, put_opt};
use crate::json::{json_object, object_new, JsonValue};
use crate::payload::{Encode, Payload};
use crate::error::{lemma_api_error_has_no_id, ApiError, ApiErrorView};
use crate::response::{
    lemma_response_decodes_back, response_encoded, response_of, ResponseDataView, ResponseView,
};
use crate::image::{Image, ImageView};
use vstd::prelude::*;

verus! {

/// Data returned for an album.
#[derive(Debug, Clone, PartialEq, Eq)]
pub struct Album {
    pub id: String,
    pub title: String,
    pub description: String,
    pub datetime: u32,
    pub cover: String,
    pub cover_width: u32,
    pub cover_height: u32,
    pub account_url: Option<String>,
    pub privacy: String,
    pub layout: String,
    pub views: u32,
    pub link: String,
    pub favorite: bool,
    pub nsfw: Option<bool>,
    pub section: Option<String>,
    pub order: u32,
    pub deletehash: Option<String>,
    pub images_count: u32,
    pub images: Option<Vec<Image>>,
    pub in_gallery: bool,
}

/// The mathematical content of an [`Album`].
pub struct AlbumView {
    pub id: Seq<char>,
    pub title: Seq<char>,
    pub description: Seq<char>,
    pub datetime: u32,
    pub cover: Seq<char>,
    pub cover_width: u32,
    pub cover_height: u32,
    pub account_url: Option<Seq<char>>,
    pub privacy: Seq<char>,
    pub layout: Seq<char>,
    pub views: u32,
    pub link: Seq<char>,
    pub favorite: bool,
    pub nsfw: Option<bool>,
    pub section: Option<Seq<char>>,
    pub order: u32,
    pub deletehash: Option<Seq<char>>,
    pub images_count: u32,
    pub images: Option<Seq<ImageView>>,
    pub in_gallery: bool,
}

impl DeepView for Album {
    type V = AlbumView;

    open spec fn deep_view(&self) -> AlbumView {
        AlbumView {
            id: self.id.deep_view(),
            title: self.title.deep_view(),
            description: self.description.deep_view(),
            datetime: self.datetime,
            cover: self.cover.deep_view(),
            cover_width: self.cover_width,
            cover_height: self.cover_height,
            account_url: self.account_url.deep_view(),
            privacy: self.privacy.deep_view(),
            layout: self.layout.deep_view(),
            views: self.views,
            link: self.link.deep_view(),
            favorite: self.favorite,
            nsfw: self.nsfw,
            section: self.section.deep_view(),
            order: self.order,
            deletehash: self.deletehash.deep_view(),
            images_count: self.images_count,
            images: self.images.deep_view(),
            in_gallery: self.in_gallery,
        }
    }
}

impl View for Album {
    type V = AlbumView;

    open spec fn view(&self) -> AlbumView {
        self.deep_view()
    }
}

/// Whether `j` has the shape of an album: an object in which every required
/// member is there with its type, and every optional member is missing,
/// `null` or of its type. Members that an album does not have are ignored.
pub open spec fn is_album(j: JsonValue) -> bool {
    &&& field_at::<String>(j, "id"@) is Some
    &&& field_at::<String>(j, "title"@) is Some
    &&& field_at::<String>(j, "description"@) is Some
    &&& field_at::<u32>(j, "datetime"@) is Some
    &&& field_at::<String>(j, "cover"@) is Some
    &&& field_at::<u32>(j, "cover_width"@) is Some
    &&& field_at::<u32>(j, "cover_height"@) is Some
    &&& opt_field_at::<String>(j, "account_url"@) is Some
    &&& field_at::<String>(j, "privacy"@) is Some
    &&& field_at::<String>(j, "layout"@) is Some
    &&& field_at::<u32>(j, "views"@) is Some
    &&& field_at::<String>(j, "link"@) is Some
    &&& field_at::<bool>(j, "favorite"@) is Some
    &&& opt_field_at::<bool>(j, "nsfw"@) is Some
    &&& opt_field_at::<String>(j, "section"@) is Some
    &&& field_at::<u32>(j, "order"@) is Some
    &&& opt_field_at::<String>(j, "deletehash"@) is Some
    &&& field_at::<u32>(j, "images_count"@) is Some
    &&& opt_field_at::<Vec<Image>>(j, "images"@) is Some
    &&& field_at::<bool>(j, "in_gallery"@) is Some
}

/// The album that `j` stands for, member by member. The images are there
/// only where the API put them inline.
pub open spec fn album_of(j: JsonValue) -> Option<AlbumView> {
    if is_album(j) {
        Some(
            AlbumView {
                id: field_at::<String>(j, "id"@).unwrap(),
                title: field_at::<String>(j, "title"@).unwrap(),
                description: field_at::<String>(j, "description"@).unwrap(),
                datetime: field_at::<u32>(j, "datetime"@).unwrap(),
                cover: field_at::<String>(j, "cover"@).unwrap(),
                cover_width: field_at::<u32>(j, "cover_width"@).unwrap(),
                cover_height: field_at::<u32>(j, "cover_height"@).unwrap(),
                account_url: opt_field_at::<String>(j, "account_url"@).unwrap(),
                privacy: field_at::<String>(j, "privacy"@).unwrap(),
                layout: field_at::<String>(j, "layout"@).unwrap(),
                views: field_at::<u32>(j, "views"@).unwrap(),
                link: field_at::<String>(j, "link"@).unwrap(),
                favorite: field_at::<bool>(j, "favorite"@).unwrap(),
                nsfw: opt_field_at::<bool>(j, "nsfw"@).unwrap(),
                section: opt_field_at::<String>(j, "section"@).unwrap(),
                order: field_at::<u32>(j, "order"@).unwrap(),
                deletehash: opt_field_at::<String>(j, "deletehash"@).unwrap(),
                images_count: field_at::<u32>(j, "images_count"@).unwrap(),
                images: opt_field_at::<Vec<Image>>(j, "images"@).unwrap(),
                in_gallery: field_at::<bool>(j, "in_gallery"@).unwrap(),
            },
        )
    } else {
        None
    }
}

/// The members of the object that stands for `x`: one for each field, an
/// absent optional field as `null`.
pub open spec fn album_members(x: AlbumView) -> Map<Seq<char>, JsonValue> {
    Map::empty()
        .insert("id"@, String::encoded(x.id))
        .insert("title"@, String::encoded(x.title))
        .insert("description"@, String::encoded(x.description))
        .insert("datetime"@, u32::encoded(x.datetime))
        .insert("cover"@, String::encoded(x.cover))
        .insert("cover_width"@, u32::encoded(x.cover_width))
        .insert("cover_height"@, u32::encoded(x.cover_height))
        .insert("account_url"@, opt_encoded::<String>(x.account_url))
        .insert("privacy"@, String::encoded(x.privacy))
        .insert("layout"@, String::encoded(x.layout))
        .insert("views"@, u32::encoded(x.views))
        .insert("link"@, String::encoded(x.link))
        .insert("favorite"@, bool::encoded(x.favorite))
        .insert("nsfw"@, opt_encoded::<bool>(x.nsfw))
        .insert("section"@, opt_encoded::<String>(x.section))
        .insert("order"@, u32::encoded(x.order))
        .insert("deletehash"@, opt_encoded::<String>(x.deletehash))
        .insert("images_count"@, u32::encoded(x.images_count))
        .insert("images"@, opt_encoded::<Vec<Image>>(x.images))
        .insert("in_gallery"@, bool::encoded(x.in_gallery))
}

impl Payload for Album {
    open spec fn decoded(j: JsonValue) -> Option<AlbumView> {
        album_of(j)
    }

    fn from_json(v: &serde_json::Value) -> (r: Option<Album>) {
        let id = field::<String>(v, "id")?;
        let title = field::<String>(v, "title")?;
        let description = field::<String>(v, "description")?;
        let datetime = field::<u32>(v, "datetime")?;
        let cover = field::<String>(v, "cover")?;
        let cover_width = field::<u32>(v, "cover_width")?;
        let cover_height = field::<u32>(v, "cover_height")?;
        let account_url = opt_field::<String>(v, "account_url")?;
        let privacy = field::<String>(v, "privacy")?;
        let layout = field::<String>(v, "layout")?;
        let views = field::<u32>(v, "views")?;
        let link = field::<String>(v, "link")?;
        let favorite = field::<bool>(v, "favorite")?;
        let nsfw = opt_field::<bool>(v, "nsfw")?;
        let section = opt_field::<String>(v, "section")?;
        let order = field::<u32>(v, "order")?;
        let deletehash = opt_field::<String>(v, "deletehash")?;
        let images_count = field::<u32>(v, "images_count")?;
        let images = opt_field::<Vec<Image>>(v, "images")?;
        let in_gallery = field::<bool>(v, "in_gallery")?;
        Some(
            Album {
                id,
                title,
                description,
                datetime,
                cover,
                cover_width,
                cover_height,
                account_url,
                privacy,
                layout,
                views,
                link,
                favorite,
                nsfw,
                section,
                order,
                deletehash,
                images_count,
                images,
                in_gallery,
            },
        )
    }
}

impl Encode for Album {
    open spec fn encoded(x: AlbumView) -> JsonValue {
        JsonValue::Object(album_members(x))
    }

    fn to_json(&self) -> (v: serde_json::Value) {
        let mut o = object_new();
        put::<String>(&mut o, "id", &self.id);
        put::<String>(&mut o, "title", &self.title);
        put::<String>(&mut o, "description", &self.description);
        put::<u32>(&mut o, "datetime", &self.datetime);
        put::<String>(&mut o, "cover", &self.cover);
        put::<u32>(&mut o, "cover_width", &self.cover_width);
        put::<u32>(&mut o, "cover_height", &self.cover_height);
        put_opt::<String>(&mut o, "account_url", &self.account_url);
        put::<String>(&mut o, "privacy", &self.privacy);
        put::<String>(&mut o, "layout", &self.layout);
        put::<u32>(&mut o, "views", &self.views);
        put::<String>(&mut o, "link", &self.link);
        put::<bool>(&mut o, "favorite", &self.favorite);
        put_opt::<bool>(&mut o, "nsfw", &self.nsfw);
        put_opt::<String>(&mut o, "section", &self.section);
        put::<u32>(&mut o, "order", &self.order);
        put_opt::<String>(&mut o, "deletehash", &self.deletehash);
        put::<u32>(&mut o, "images_count", &self.images_count);
        put_opt::<Vec<Image>>(&mut o, "images", &self.images);
        put::<bool>(&mut o, "in_gallery", &self.in_gallery);
        json_object(o)
    }

    proof fn lemma_decodes_back(x: AlbumView) {
        lemma_album_keys();
        if x.images is Some {
            Vec::<Image>::lemma_decodes_back(x.images.unwrap());
        }
        let j = Self::encoded(x);
        let o = album_members(x);
        assert(o.contains_key("id"@) && o["id"@] == String::encoded(x.id));
        assert(o.contains_key("title"@) && o["title"@] == String::encoded(x.title));
        assert(o.contains_key("description"@) && o["description"@] == String::encoded(x.description));
        assert(o.contains_key("datetime"@) && o["datetime"@] == u32::encoded(x.datetime));
        assert(o.contains_key("cover"@) && o["cover"@] == String::encoded(x.cover));
        assert(o.contains_key("cover_width"@) && o["cover_width"@] == u32::encoded(x.cover_width));
        assert(o.contains_key("cover_height"@) && o["cover_height"@] == u32::encoded(x.cover_height));
        assert(o.contains_key("account_url"@) && o["account_url"@] == opt_encoded::<String>(x.account_url));
        assert(o.contains_key("privacy"@) && o["privacy"@] == String::encoded(x.privacy));
        assert(o.contains_key("layout"@) && o["layout"@] == String::encoded(x.layout));
        assert(o.contains_key("views"@) && o["views"@] == u32::encoded(x.views));
        assert(o.contains_key("link"@) && o["link"@] == String::encoded(x.link));
        assert(o.contains_key("favorite"@) && o["favorite"@] == bool::encoded(x.favorite));
        assert(o.contains_key("nsfw"@) && o["nsfw"@] == opt_encoded::<bool>(x.nsfw));
        assert(o.contains_key("section"@) && o["section"@] == opt_encoded::<String>(x.section));
        assert(o.contains_key("order"@) && o["order"@] == u32::encoded(x.order));
        assert(o.contains_key("deletehash"@) && o["deletehash"@] == opt_encoded::<String>(x.deletehash));
        assert(o.contains_key("images_count"@) && o["images_count"@] == u32::encoded(x.images_count));
        assert(o.contains_key("images"@) && o["images"@] == opt_encoded::<Vec<Image>>(x.images));
        assert(o.contains_key("in_gallery"@) && o["in_gallery"@] == bool::encoded(x.in_gallery));
        assert(is_album(j));
    }
}

/// The keys of the members differ from one another: each is told from the
/// others by its length and its first character.
pub proof fn lemma_album_keys()
    ensures
        "id"@.len() == 2 && "id"@[0] == 'i',
        "title"@.len() == 5 && "title"@[0] == 't',
        "description"@.len() == 11 && "description"@[0] == 'd',
        "datetime"@.len() == 8 && "datetime"@[0] == 'd',
        "cover"@.len() == 5 && "cover"@[0] == 'c',
        "cover_width"@.len() == 11 && "cover_width"@[0] == 'c',
        "cover_height"@.len() == 12 && "cover_height"@[0] == 'c',
        "account_url"@.len() == 11 && "account_url"@[0] == 'a',
        "privacy"@.len() == 7 && "privacy"@[0] == 'p',
        "layout"@.len() == 6 && "layout"@[0] == 'l',
        "views"@.len() == 5 && "views"@[0] == 'v',
        "link"@.len() == 4 && "link"@[0] == 'l',
        "favorite"@.len() == 8 && "favorite"@[0] == 'f',
        "nsfw"@.len() == 4 && "nsfw"@[0] == 'n',
        "section"@.len() == 7 && "section"@[0] == 's',
        "order"@.len() == 5 && "order"@[0] == 'o',
        "deletehash"@.len() == 10 && "deletehash"@[0] == 'd',
        "images_count"@.len() == 12 && "images_count"@[0] == 'i',
        "images"@.len() == 6 && "images"@[0] == 'i',
        "in_gallery"@.len() == 10 && "in_gallery"@[0] == 'i',
{
    reveal_strlit("id");
    reveal_strlit("title");
    reveal_strlit("description");
    reveal_strlit("datetime");
    reveal_strlit("cover");
    reveal_strlit("cover_width");
    reveal_strlit("cover_height");
    reveal_strlit("account_url");
    reveal_strlit("privacy");
    reveal_strlit("layout");
    reveal_strlit("views");
    reveal_strlit("link");
    reveal_strlit("favorite");
    reveal_strlit("nsfw");
    reveal_strlit("section");
    reveal_strlit("order");
    reveal_strlit("deletehash");
    reveal_strlit("images_count");
    reveal_strlit("images");
    reveal_strlit("in_gallery");
}

} // verus!
