//! The messages that announce a ride: what they hold, how they are built, and
//! which of their parts go on the wire.

use vstd::prelude::*;
use vstd::string::StringExecFns;
use crate::strava::Activity;

verus! {

/// One name and value shown in an embed.
#[derive(Debug)]
pub struct EmbedField {
    pub name: String,
    pub value: String,
    pub inline: Option<bool>,
}

pub struct EmbedFieldView {
    pub name: Seq<char>,
    pub value: Seq<char>,
    pub inline: Option<bool>,
}

impl DeepView for EmbedField {
    type V = EmbedFieldView;

    open spec fn deep_view(&self) -> EmbedFieldView {
        EmbedFieldView { name: self.name@, value: self.value@, inline: self.inline }
    }
}

impl Clone for EmbedField {
    fn clone(&self) -> (copy: EmbedField)
        ensures
            copy.deep_view() == self.deep_view(),
    {
        EmbedField { name: self.name.clone(), value: self.value.clone(), inline: self.inline }
    }
}

/// An image that lives at an address.
#[derive(Debug)]
pub struct URLImageSource {
    pub url: String,
}

/// An image that travels with the message as a file.
#[derive(Debug)]
pub struct ByteImageSource {
    pub bytes: Vec<u8>,
    pub file_name: String,
}

/// The image of an embed.
#[derive(Debug)]
pub enum EmbedImage {
    Url(URLImageSource),
    Bytes(ByteImageSource),
}

pub enum EmbedImageView {
    Url(Seq<char>),
    Bytes(Seq<u8>, Seq<char>),
}

impl DeepView for EmbedImage {
    type V = EmbedImageView;

    open spec fn deep_view(&self) -> EmbedImageView {
        match self {
            EmbedImage::Url(source) => EmbedImageView::Url(source.url@),
            EmbedImage::Bytes(source) => EmbedImageView::Bytes(source.bytes@, source.file_name@),
        }
    }
}

fn copy_bytes(bytes: &Vec<u8>) -> (copy: Vec<u8>)
    ensures
        copy@ == bytes@,
{
    let mut copy: Vec<u8> = Vec::new();
    let mut i: usize = 0;
    while i < bytes.len()
        invariant
            i <= bytes.len(),
            copy@ == bytes@.take(i as int),
        decreases bytes.len() - i,
    {
        copy.push(bytes[i]);
        i = i + 1;
        assert(copy@ =~= bytes@.take(i as int));
    }
    assert(bytes@.take(bytes.len() as int) =~= bytes@);
    copy
}

impl Clone for EmbedImage {
    fn clone(&self) -> (copy: EmbedImage)
        ensures
            copy.deep_view() == self.deep_view(),
    {
        match self {
            EmbedImage::Url(source) => EmbedImage::Url(URLImageSource { url: source.url.clone() }),
            EmbedImage::Bytes(source) => EmbedImage::Bytes(
                ByteImageSource {
                    bytes: copy_bytes(&source.bytes),
                    file_name: source.file_name.clone(),
                },
            ),
        }
    }
}

/// The line under an embed.
#[derive(Debug)]
pub struct EmbedFooter {
    pub text: String,
    pub icon_url: String,
}

pub struct EmbedFooterView {
    pub text: Seq<char>,
    pub icon_url: Seq<char>,
}

impl DeepView for EmbedFooter {
    type V = EmbedFooterView;

    open spec fn deep_view(&self) -> EmbedFooterView {
        EmbedFooterView { text: self.text@, icon_url: self.icon_url@ }
    }
}

impl Clone for EmbedFooter {
    fn clone(&self) -> (copy: EmbedFooter)
        ensures
            copy.deep_view() == self.deep_view(),
    {
        EmbedFooter { text: self.text.clone(), icon_url: self.icon_url.clone() }
    }
}

/// The framed part of a message.
#[derive(Debug)]
pub struct DiscordEmbed {
    pub title: Option<String>,
    pub description: Option<String>,
    pub fields: Option<Vec<EmbedField>>,
    pub image: Option<EmbedImage>,
    pub footer: Option<EmbedFooter>,
}

pub struct DiscordEmbedView {
    pub title: Option<Seq<char>>,
    pub description: Option<Seq<char>>,
    pub fields: Option<Seq<EmbedFieldView>>,
    pub image: Option<EmbedImageView>,
    pub footer: Option<EmbedFooterView>,
}

impl DeepView for DiscordEmbed {
    type V = DiscordEmbedView;

    open spec fn deep_view(&self) -> DiscordEmbedView {
        DiscordEmbedView {
            title: self.title.deep_view(),
            description: self.description.deep_view(),
            fields: self.fields.deep_view(),
            image: self.image.deep_view(),
            footer: self.footer.deep_view(),
        }
    }
}

/// A message for a webhook.
#[derive(Debug)]
pub struct DiscordMessage {
    pub content: Option<String>,
    pub username: Option<String>,
    pub avatar_url: Option<String>,
    pub embed: Option<DiscordEmbed>,
}

pub struct DiscordMessageView {
    pub content: Option<Seq<char>>,
    pub username: Option<Seq<char>>,
    pub avatar_url: Option<Seq<char>>,
    pub embed: Option<DiscordEmbedView>,
}

impl DeepView for DiscordMessage {
    type V = DiscordMessageView;

    open spec fn deep_view(&self) -> DiscordMessageView {
        DiscordMessageView {
            content: self.content.deep_view(),
            username: self.username.deep_view(),
            avatar_url: self.avatar_url.deep_view(),
            embed: self.embed.deep_view(),
        }
    }
}

fn copy_fields(fields: &Vec<EmbedField>) -> (copy: Vec<EmbedField>)
    ensures
        copy.deep_view() == fields.deep_view(),
{
    let mut copy: Vec<EmbedField> = Vec::new();
    let mut i: usize = 0;
    while i < fields.len()
        invariant
            i <= fields.len(),
            copy.len() == i,
            forall|j: int| 0 <= j < i ==> copy[j].deep_view() == fields[j].deep_view(),
        decreases fields.len() - i,
    {
        copy.push(fields[i].clone());
        i = i + 1;
    }
    assert(copy.deep_view() =~= fields.deep_view());
    copy
}

impl Clone for DiscordEmbed {
    fn clone(&self) -> (copy: DiscordEmbed)
        ensures
            copy.deep_view() == self.deep_view(),
    {
        DiscordEmbed {
            title: match &self.title {
                Some(title) => Some(title.clone()),
                None => None,
            },
            description: match &self.description {
                Some(description) => Some(description.clone()),
                None => None,
            },
            fields: match &self.fields {
                Some(fields) => Some(copy_fields(fields)),
                None => None,
            },
            image: match &self.image {
                Some(image) => Some(image.clone()),
                None => None,
            },
            footer: match &self.footer {
                Some(footer) => Some(footer.clone()),
                None => None,
            },
        }
    }
}

/// The fields of an embed after one more was added: a list is begun where
/// there was none.
pub open spec fn with_field(fields: Option<Seq<EmbedFieldView>>, field: EmbedFieldView) -> Option<
    Seq<EmbedFieldView>,
> {
    match fields {
        Some(list) => Some(list.push(field)),
        None => Some(seq![field]),
    }
}

impl DiscordEmbed {
    /// An embed with nothing in it.
    pub fn new() -> (embed: DiscordEmbed)
        ensures
            embed.deep_view() == (DiscordEmbedView {
                title: None,
                description: None,
                fields: None,
                image: None,
                footer: None,
            }),
    {
        DiscordEmbed { title: None, description: None, fields: None, image: None, footer: None }
    }

    /// Sets the title and hands the embed back for the next call.
    pub fn title(&mut self, title: &str) -> (embed: &mut Self)
        ensures
            embed.deep_view() == (DiscordEmbedView {
                title: Some(title@),
                ..old(self).deep_view()
            }),
            *final(self) == *final(embed),
    {
        self.title = Some(String::from_str(title));
        self
    }

    /// Sets the description and hands the embed back for the next call.
    pub fn description(&mut self, description: &str) -> (embed: &mut Self)
        ensures
            embed.deep_view() == (DiscordEmbedView {
                description: Some(description@),
                ..old(self).deep_view()
            }),
            *final(self) == *final(embed),
    {
        self.description = Some(String::from_str(description));
        self
    }

    /// Adds a field behind those already there and hands the embed back for
    /// the next call.
    pub fn field(&mut self, name: &str, value: &str, inline: bool) -> (embed: &mut Self)
        ensures
            embed.deep_view() == (DiscordEmbedView {
                fields: with_field(
                    old(self).deep_view().fields,
                    EmbedFieldView { name: name@, value: value@, inline: Some(inline) },
                ),
                ..old(self).deep_view()
            }),
            *final(self) == *final(embed),
    {
        let field = EmbedField {
            name: String::from_str(name),
            value: String::from_str(value),
            inline: Some(inline),
        };
        let ghost added = field.deep_view();
        let ghost earlier = self.fields.deep_view();
        let mut fields: Vec<EmbedField> = match self.fields.take() {
            Some(fields) => fields,
            None => Vec::new(),
        };
        let ghost before = fields.deep_view();
        assert(before =~= match earlier {
            Some(list) => list,
            None => Seq::empty(),
        });
        fields.push(field);
        assert(fields.deep_view() =~= before.push(added));
        assert(Seq::<EmbedFieldView>::empty().push(added) =~= seq![added]);
        self.fields = Some(fields);
        assert(self.fields.deep_view() == with_field(earlier, added));
        self
    }

    /// Sets the image and hands the embed back for the next call.
    pub fn image(&mut self, image: EmbedImage) -> (embed: &mut Self)
        ensures
            embed.deep_view() == (DiscordEmbedView {
                image: Some(image.deep_view()),
                ..old(self).deep_view()
            }),
            *final(self) == *final(embed),
    {
        self.image = Some(image);
        self
    }

    /// A copy of the embed as it stands.
    pub fn build(&mut self) -> (embed: DiscordEmbed)
        ensures
            embed.deep_view() == old(self).deep_view(),
            final(self).deep_view() == old(self).deep_view(),
    {
        self.clone()
    }
}

impl DiscordMessage {
    /// A message with nothing in it.
    pub fn new() -> (message: DiscordMessage)
        ensures
            message.deep_view() == (DiscordMessageView {
                content: None,
                username: None,
                avatar_url: None,
                embed: None,
            }),
    {
        DiscordMessage { content: None, username: None, avatar_url: None, embed: None }
    }
}

/// The names that the fitness service gives to rides whose rider gave none.
pub open spec fn stock_name(name: Seq<char>) -> bool {
    ||| name == "Afternoon Mountain Bike Ride"@
    ||| name == "Morning Mountain Bike Ride"@
    ||| name == "Evening Mountain Bike Ride"@
    ||| name == "Lunch Mountain Bike Ride"@
}

/// The name to show for a ride: its own, unless that is a stock name.
pub fn display_name(name: String) -> (shown: Option<String>)
    ensures
        shown.deep_view() == if stock_name(name@) {
            None
        } else {
            Some(name@)
        },
{
    if *name.as_str() == *"Afternoon Mountain Bike Ride" || *name.as_str()
        == *"Morning Mountain Bike Ride" || *name.as_str() == *"Evening Mountain Bike Ride"
        || *name.as_str() == *"Lunch Mountain Bike Ride" {
        None
    } else {
        Some(name)
    }
}

/// What is told about a finished ride. The four measurements are numbers
/// already written out, without their units.
#[derive(Debug)]
pub struct WebhookData {
    pub name: Option<String>,
    pub distance: String,
    pub total_elevation_gain: String,
    pub average_speed: String,
    pub max_speed: String,
    /// A picture of the ride's map, as a PNG file.
    pub image: Option<Vec<u8>>,
}

pub struct WebhookDataView {
    pub name: Option<Seq<char>>,
    pub distance: Seq<char>,
    pub total_elevation_gain: Seq<char>,
    pub average_speed: Seq<char>,
    pub max_speed: Seq<char>,
    pub image: Option<Seq<u8>>,
}

impl DeepView for WebhookData {
    type V = WebhookDataView;

    open spec fn deep_view(&self) -> WebhookDataView {
        WebhookDataView {
            name: self.name.deep_view(),
            distance: self.distance@,
            total_elevation_gain: self.total_elevation_gain@,
            average_speed: self.average_speed@,
            max_speed: self.max_speed@,
            image: match self.image {
                Some(bytes) => Some(bytes@),
                None => None,
            },
        }
    }
}

/// The address of the picture that stands for the sender.
pub open spec fn avatar_address(host_uri: Seq<char>) -> Seq<char> {
    host_uri + "/assets/android-chrome-192x192.png"@
}

/// An embed that only says who sent it.
pub open spec fn signed_embed(host_uri: Seq<char>) -> DiscordEmbedView {
    DiscordEmbedView {
        title: None,
        description: None,
        fields: None,
        image: None,
        footer: Some(
            EmbedFooterView {
                text: "Powered by troyonthetrails.com"@,
                icon_url: avatar_address(host_uri),
            },
        ),
    }
}

/// A message from the usual sender around an embed.
pub open spec fn signed_message(host_uri: Seq<char>, embed: DiscordEmbedView) -> DiscordMessageView {
    DiscordMessageView {
        content: None,
        username: Some("TOTT"@),
        avatar_url: Some(avatar_address(host_uri)),
        embed: Some(embed),
    }
}

/// The embeds of a message as a list: its one embed, or none.
pub open spec fn embed_list(embed: Option<DiscordEmbedView>) -> Seq<DiscordEmbedView> {
    match embed {
        Some(embed) => seq![embed],
        None => Seq::empty(),
    }
}

/// A field that is shown beside its neighbours.
pub open spec fn inline_field(name: Seq<char>, value: Seq<char>) -> EmbedFieldView {
    EmbedFieldView { name, value, inline: Some(true) }
}

/// The embed that announces the start of a ride.
pub open spec fn on_trails_embed(host_uri: Seq<char>, beacon_url: Seq<char>) -> DiscordEmbedView {
    DiscordEmbedView {
        title: Some("Troy is on the trails!"@),
        description: Some(beacon_url),
        ..signed_embed(host_uri)
    }
}

/// The embed that announces the end of a ride.
///
/// Without data it has only its title. With a picture it shows the picture
/// and nothing else. Otherwise it shows the ride's name, where it has one to
/// show, and its four measurements with their units.
pub open spec fn off_trails_embed(
    host_uri: Seq<char>,
    webhook_data: Option<WebhookDataView>,
) -> DiscordEmbedView {
    let titled = DiscordEmbedView {
        title: Some("Troy is no longer on the trails!"@),
        ..signed_embed(host_uri)
    };
    match webhook_data {
        None => titled,
        Some(data) => match data.image {
            Some(bytes) => DiscordEmbedView {
                image: Some(EmbedImageView::Bytes(bytes, "map_background.png"@)),
                ..titled
            },
            None => DiscordEmbedView {
                description: data.name,
                fields: Some(
                    seq![
                        inline_field("Distance"@, data.distance + "mi"@),
                        inline_field("Elevation Gain"@, data.total_elevation_gain + "ft"@),
                        inline_field("Average Speed"@, data.average_speed + "mph"@),
                        inline_field("Top Speed"@, data.max_speed + "mph"@),
                    ],
                ),
                ..titled
            },
        },
    }
}

fn with_unit(number: &String, unit: &str) -> (text: String)
    ensures
        text@ == number@ + unit@,
{
    let mut text = number.clone();
    text.append(unit);
    text
}

impl DiscordEmbed {
    /// An embed that says who sent it and nothing else; `host_uri` is the
    /// address under which the service is reached.
    pub fn with_footer(host_uri: &str) -> (embed: DiscordEmbed)
        ensures
            embed.deep_view() == signed_embed(host_uri@),
    {
        let mut icon_url = String::from_str(host_uri);
        icon_url.append("/assets/android-chrome-192x192.png");
        DiscordEmbed {
            title: None,
            description: None,
            fields: None,
            image: None,
            footer: Some(
                EmbedFooter {
                    text: String::from_str("Powered by troyonthetrails.com"),
                    icon_url,
                },
            ),
        }
    }

    /// The embed that announces the start of a ride and points to its feed.
    pub fn on_trails(host_uri: &str, beacon_url: &str) -> (embed: DiscordEmbed)
        ensures
            embed.deep_view() == on_trails_embed(host_uri@, beacon_url@),
    {
        let mut embed = DiscordEmbed::with_footer(host_uri);
        embed.title = Some(String::from_str("Troy is on the trails!"));
        embed.description = Some(String::from_str(beacon_url));
        embed
    }

    /// The embed that announces the end of a ride.
    pub fn off_trails(host_uri: &str, webhook_data: Option<WebhookData>) -> (embed: DiscordEmbed)
        ensures
            embed.deep_view() == off_trails_embed(host_uri@, webhook_data.deep_view()),
    {
        let mut embed = DiscordEmbed::with_footer(host_uri);
        embed.title = Some(String::from_str("Troy is no longer on the trails!"));
        let data = match webhook_data {
            None => {
                return embed;
            },
            Some(data) => data,
        };
        match data.image {
            Some(bytes) => {
                embed.image = Some(
                    EmbedImage::Bytes(
                        ByteImageSource { bytes, file_name: String::from_str("map_background.png") },
                    ),
                );
                embed
            },
            None => {
                let distance = with_unit(&data.distance, "mi");
                let gain = with_unit(&data.total_elevation_gain, "ft");
                let average = with_unit(&data.average_speed, "mph");
                let top = with_unit(&data.max_speed, "mph");
                embed.description = data.name;
                let mut fields: Vec<EmbedField> = Vec::new();
                fields.push(
                    EmbedField {
                        name: String::from_str("Distance"),
                        value: distance,
                        inline: Some(true),
                    },
                );
                fields.push(
                    EmbedField {
                        name: String::from_str("Elevation Gain"),
                        value: gain,
                        inline: Some(true),
                    },
                );
                fields.push(
                    EmbedField {
                        name: String::from_str("Average Speed"),
                        value: average,
                        inline: Some(true),
                    },
                );
                fields.push(
                    EmbedField {
                        name: String::from_str("Top Speed"),
                        value: top,
                        inline: Some(true),
                    },
                );
                assert(fields.deep_view() =~= seq![
                    inline_field("Distance"@, data.distance@ + "mi"@),
                    inline_field("Elevation Gain"@, data.total_elevation_gain@ + "ft"@),
                    inline_field("Average Speed"@, data.average_speed@ + "mph"@),
                    inline_field("Top Speed"@, data.max_speed@ + "mph"@),
                ]);
                embed.fields = Some(fields);
                embed
            },
        }
    }
}

impl EmbedImage {
    /// The address under which the message refers to the image: its own, or
    /// that of the attached file.
    pub open spec fn address(self) -> Seq<char> {
        match self {
            EmbedImage::Url(source) => source.url@,
            EmbedImage::Bytes(source) => "attachment://"@ + source.file_name@,
        }
    }

    /// The address that goes on the wire for the image.
    pub fn url(&self) -> (url: String)
        ensures
            url@ == self.address(),
    {
        match self {
            EmbedImage::Url(source) => source.url.clone(),
            EmbedImage::Bytes(source) => {
                let mut url = String::from_str("attachment://");
                url.append(source.file_name.as_str());
                url
            },
        }
    }
}

impl DiscordMessage {
    /// A message from the usual sender around an embed.
    pub fn with_embed(host_uri: &str, embed: DiscordEmbed) -> (message: DiscordMessage)
        ensures
            message.deep_view() == signed_message(host_uri@, embed.deep_view()),
    {
        let mut avatar_url = String::from_str(host_uri);
        avatar_url.append("/assets/android-chrome-192x192.png");
        DiscordMessage {
            content: None,
            username: Some(String::from_str("TOTT")),
            avatar_url: Some(avatar_url),
            embed: Some(embed),
        }
    }

    /// A message from the usual sender that says nothing yet; `host_uri` is
    /// the address under which the service is reached.
    pub fn with_sender(host_uri: &str) -> (message: DiscordMessage)
        ensures
            message.deep_view() == (DiscordMessageView {
                content: None,
                username: Some("TOTT"@),
                avatar_url: Some(avatar_address(host_uri@)),
                embed: None,
            }),
    {
        let mut avatar_url = String::from_str(host_uri);
        avatar_url.append("/assets/android-chrome-192x192.png");
        DiscordMessage {
            content: None,
            username: Some(String::from_str("TOTT")),
            avatar_url: Some(avatar_url),
            embed: None,
        }
    }

    /// The embeds of the message as the wire wants them: a list of its one
    /// embed, or an empty list.
    pub fn embeds(&self) -> (list: Vec<DiscordEmbed>)
        ensures
            list.deep_view() == embed_list(self.embed.deep_view()),
    {
        let mut list: Vec<DiscordEmbed> = Vec::new();
        match &self.embed {
            Some(embed) => {
                list.push(embed.clone());
            },
            None => {},
        }
        assert(list.deep_view() =~= embed_list(self.embed.deep_view()));
        list
    }

    /// The file that travels with the message: the image of its embed, where
    /// that image is given as bytes.
    pub fn attachment(&self) -> (file: Option<&ByteImageSource>)
        ensures
            match file {
                Some(source) => self.embed matches Some(embed) && embed.image matches Some(
                    EmbedImage::Bytes(held),
                ) && held == *source,
                None => !(self.embed matches Some(embed) && embed.image matches Some(
                    EmbedImage::Bytes(_),
                )),
            },
    {
        match &self.embed {
            Some(embed) => match &embed.image {
                Some(EmbedImage::Bytes(source)) => Some(source),
                _ => None,
            },
            None => None,
        }
    }
}

/// The message that announces the start of a ride.
pub fn send_starting_webhook(host_uri: &str, beacon_url: &str) -> (message: DiscordMessage)
    ensures
        message.deep_view() == signed_message(host_uri@, on_trails_embed(host_uri@, beacon_url@)),
{
    DiscordMessage::with_embed(host_uri, DiscordEmbed::on_trails(host_uri, beacon_url))
}

/// The message that announces the end of a ride.
pub fn send_end_webhook(host_uri: &str, webhook_data: Option<WebhookData>) -> (message:
    DiscordMessage)
    ensures
        message.deep_view() == signed_message(
            host_uri@,
            off_trails_embed(host_uri@, webhook_data.deep_view()),
        ),
{
    DiscordMessage::with_embed(host_uri, DiscordEmbed::off_trails(host_uri, webhook_data))
}

/// The message that says that a ride was thrown away.
pub fn send_discard_webhook(host_uri: &str) -> (message: DiscordMessage)
    ensures
        message.deep_view() == signed_message(
            host_uri@,
            DiscordEmbedView {
                title: Some("Troy has discarded the Strava activity"@),
                ..signed_embed(host_uri@)
            },
        ),
{
    let mut embed = DiscordEmbed::with_footer(host_uri);
    embed.title = Some(String::from_str("Troy has discarded the Strava activity"));
    DiscordMessage::with_embed(host_uri, embed)
}

/// How the end of a ride is announced, given what is known of the activity.
#[derive(Debug)]
pub enum EndNotice {
    /// Nothing is known of the activity: announce the end without data.
    Bare,
    /// The activity has no map: nothing is announced.
    Silent,
    /// Draw the map along `polyline`, then announce the end with the ride's
    /// data and, where the drawing succeeded, its picture.
    Illustrated { name: Option<String>, polyline: String, elapsed_time: i64 },
}

pub enum EndNoticeView {
    Bare,
    Silent,
    Illustrated { name: Option<Seq<char>>, polyline: Seq<char>, elapsed_time: i64 },
}

impl DeepView for EndNotice {
    type V = EndNoticeView;

    open spec fn deep_view(&self) -> EndNoticeView {
        match self {
            EndNotice::Bare => EndNoticeView::Bare,
            EndNotice::Silent => EndNoticeView::Silent,
            EndNotice::Illustrated { name, polyline, elapsed_time } => EndNoticeView::Illustrated {
                name: name.deep_view(),
                polyline: polyline@,
                elapsed_time: *elapsed_time,
            },
        }
    }
}

/// The notice that an activity calls for.
pub open spec fn notice_for<M>(activity: Option<Activity<M>>) -> EndNoticeView {
    match activity {
        None => EndNoticeView::Bare,
        Some(activity) => match activity.map {
            None => EndNoticeView::Silent,
            Some(map) => EndNoticeView::Illustrated {
                name: if stock_name(activity.name@) {
                    None
                } else {
                    Some(activity.name@)
                },
                polyline: map.summary_polyline@,
                elapsed_time: activity.elapsed_time,
            },
        },
    }
}

/// Decides how the end of a ride is announced. `activity` is the finished
/// activity where it could be fetched.
pub fn end_notice<M>(activity: Option<Activity<M>>) -> (notice: EndNotice)
    ensures
        notice.deep_view() == notice_for(activity),
{
    match activity {
        None => EndNotice::Bare,
        Some(activity) => match activity.map {
            None => EndNotice::Silent,
            Some(map) => EndNotice::Illustrated {
                name: display_name(activity.name),
                polyline: map.summary_polyline,
                elapsed_time: activity.elapsed_time,
            },
        },
    }
}

} // verus!
