//! What the bot shows of the track that plays.

use vstd::prelude::*;
use vstd::string::*;

use crate::text::{
    decimal, decimal_text, digits_value, first_index, is_digit, law_decimal_has_no_leading_zero,
    law_numeral_round_trip, law_one_character_is_replaced, law_stripping_undoes_prepending, lemma_concat_lacks,
    lemma_decimal_digits, lemma_first_index_behind, lemma_split_on, numeral_value, replace_once, replaced_once,
    split_on, strip_prefix, stripped, text_of,
};

verus! {

/// An image of a cover.
pub struct Cover {
    pub url: String,
    pub width: i32,
}

/// What only one kind of item has.
#[allow(inconsistent_fields)]
pub enum UniqueFields {
    /// A track of the catalogue, by its artists and its album.
    Track { artists: Vec<String>, album: String },
    /// A file of the user's own.
    Local { artists: Option<String>, album: Option<String> },
    /// An episode of a podcast.
    Episode { show_name: String },
}

/// An item that plays.
pub struct AudioItem {
    pub uri: String,
    pub name: String,
    pub covers: Vec<Cover>,
    pub duration_ms: u32,
    pub is_explicit: bool,
    pub unique_fields: UniqueFields,
}

/// The texts in a row, with `separator` between one and the next.
pub open spec fn joined(parts: Seq<String>, separator: Seq<char>) -> Seq<char>
    decreases parts.len(),
{
    if parts.len() == 0 {
        Seq::empty()
    } else if parts.len() == 1 {
        parts[0]@
    } else {
        joined(parts.drop_last(), separator) + separator + parts.last()@
    }
}

/// The texts in a row, with `separator` between one and the next.
pub fn join(parts: &Vec<String>, separator: &str) -> (text: String)
    ensures
        text@ == joined(parts@, separator@),
{
    let mut text = String::new();
    for i in 0..parts.len()
        invariant
            text@ == joined(parts@.take(i as int), separator@),
    {
        assert(parts@.take(i + 1).drop_last() =~= parts@.take(i as int));
        assert(parts@.take(i + 1).last() == parts@[i as int]);
        if i > 0 {
            text.append(separator);
        }
        text.append(parts[i].as_str());
        assert(text@ =~= joined(parts@.take(i + 1), separator@));
    }
    assert(parts@.take(parts@.len() as int) =~= parts@);
    text
}

/// Who an item is by.
pub open spec fn artist_text(fields: UniqueFields) -> Seq<char> {
    match fields {
        UniqueFields::Track { artists, .. } => joined(artists@, ", "@),
        UniqueFields::Local { artists, .. } => match artists {
            Some(artists) => artists@,
            None => "Unknown artist"@,
        },
        UniqueFields::Episode { show_name } => show_name@,
    }
}

/// What album an item is on; empty where it is on none.
pub open spec fn album_text(fields: UniqueFields) -> Seq<char> {
    match fields {
        UniqueFields::Track { album, .. } => album@,
        UniqueFields::Local { album, .. } => match album {
            Some(album) => album@,
            None => Seq::empty(),
        },
        UniqueFields::Episode { .. } => Seq::empty(),
    }
}

/// Who an item is by.
fn artist(fields: &UniqueFields) -> (artist: String)
    ensures
        artist@ == artist_text(*fields),
{
    match fields {
        UniqueFields::Track { artists, .. } => join(artists, ", "),
        UniqueFields::Local { artists, .. } => match artists {
            Some(artists) => artists.clone(),
            None => "Unknown artist".to_owned(),
        },
        UniqueFields::Episode { show_name } => show_name.clone(),
    }
}

/// What album an item is on.
fn album(fields: &UniqueFields) -> (album: String)
    ensures
        album@ == album_text(*fields),
{
    match fields {
        UniqueFields::Track { album, .. } => album.clone(),
        UniqueFields::Local { album, .. } => match album {
            Some(album) => album.clone(),
            None => String::new(),
        },
        UniqueFields::Episode { .. } => String::new(),
    }
}

/// The widest cover; of several, the last one.
pub open spec fn widest(covers: Seq<Cover>) -> Option<Cover>
    decreases covers.len(),
{
    if covers.len() == 0 {
        None
    } else {
        match widest(covers.drop_last()) {
            Some(best) => if covers.last().width >= best.width {
                Some(covers.last())
            } else {
                Some(best)
            },
            None => Some(covers.last()),
        }
    }
}

/// Where the widest cover is found; empty where there is none.
pub open spec fn cover_url(covers: Seq<Cover>) -> Seq<char> {
    match widest(covers) {
        Some(cover) => cover.url@,
        None => Seq::empty(),
    }
}

/// Where the widest cover is found.
fn largest_cover(covers: &Vec<Cover>) -> (url: String)
    ensures
        url@ == cover_url(covers@),
{
    if covers.len() == 0 {
        return String::new();
    }
    let mut best: usize = 0;
    assert(covers@.take(1).drop_last() =~= Seq::empty());
    assert(widest(covers@.take(1).drop_last()) is None);
    for i in 1..covers.len()
        invariant
            best < covers@.len(),
            widest(covers@.take(i as int)) == Some(covers@[best as int]),
    {
        assert(covers@.take(i + 1).drop_last() =~= covers@.take(i as int));
        assert(covers@.take(i + 1).last() == covers@[i as int]);
        if covers[i].width >= covers[best].width {
            best = i;
        }
    }
    assert(covers@.take(covers@.len() as int) =~= covers@);
    covers[best].url.clone()
}

/// Where an item is found on the web; empty where its URI is not one of Spotify's.
pub open spec fn web_url(uri: Seq<char>) -> Seq<char> {
    match stripped(uri, "spotify:"@) {
        Some(rest) => "https://open.spotify.com/"@ + replaced_once(rest, ':', "/"@),
        None => Seq::empty(),
    }
}

/// Where an item is found on the web: `spotify:track:ID` is found at
/// `https://open.spotify.com/track/ID`.
pub fn spotify_url(uri: &str) -> (url: String)
    ensures
        url@ == web_url(uri@),
{
    match strip_prefix(uri, "spotify:") {
        Some(rest) => "https://open.spotify.com/".to_owned().concat(replace_once(rest, ':', "/").as_str()),
        None => String::new(),
    }
}

/// A number below a hundred, in two digits.
pub open spec fn two_digits(number: nat) -> Seq<char> {
    if number < 10 {
        "0"@ + decimal(number)
    } else {
        decimal(number)
    }
}

/// A duration in minutes and seconds; what is left of a second is dropped.
pub open spec fn duration_text(duration_ms: nat) -> Seq<char> {
    decimal(duration_ms / 1000 / 60) + ":"@ + two_digits(duration_ms / 1000 % 60)
}

/// A duration in minutes and seconds.
pub fn format_duration(duration_ms: u32) -> (text: String)
    ensures
        text@ == duration_text(duration_ms as nat),
{
    let total: u32 = duration_ms / 1000;
    let seconds: u32 = total % 60;
    let mut text = decimal_text((total / 60) as u64);
    text.append(":");
    if seconds < 10 {
        text.append("0");
    }
    text.append(decimal_text(seconds as u64).as_str());
    assert(text@ =~= duration_text(duration_ms as nat));
    text
}

/// The bar of colour beside what is shown: Spotify's green.
pub const SPOTIFY_GREEN: (u8, u8, u8) = (30, 215, 96);

/// What is shown of the item that plays.
pub struct NowPlaying {
    /// The presence of the bot: what it listens to.
    pub status: String,
    pub author: String,
    pub title: String,
    pub footer: String,
    pub url: Option<String>,
    pub description: Option<String>,
    pub thumbnail: Option<String>,
}

/// What a `NowPlaying` holds.
pub struct NowPlayingView {
    pub status: Seq<char>,
    pub author: Seq<char>,
    pub title: Seq<char>,
    pub footer: Seq<char>,
    pub url: Option<Seq<char>>,
    pub description: Option<Seq<char>>,
    pub thumbnail: Option<Seq<char>>,
}

impl View for NowPlaying {
    type V = NowPlayingView;

    open spec fn view(&self) -> NowPlayingView {
        NowPlayingView {
            status: self.status@,
            author: self.author@,
            title: self.title@,
            footer: self.footer@,
            url: text_of(self.url),
            description: text_of(self.description),
            thumbnail: text_of(self.thumbnail),
        }
    }
}

/// A text that is shown only where there is one.
pub open spec fn unless_empty(text: Seq<char>) -> Option<Seq<char>> {
    if text.len() == 0 {
        None
    } else {
        Some(text)
    }
}

/// What is shown of an item.
pub open spec fn shown(item: AudioItem, device_name: Seq<char>) -> NowPlayingView {
    let artist = artist_text(item.unique_fields);
    let album = album_text(item.unique_fields);
    NowPlayingView {
        status: item.name@ + " · "@ + artist,
        author: artist,
        title: if item.is_explicit {
            item.name@ + " 🅴"@
        } else {
            item.name@
        },
        footer: "🎧 "@ + device_name + "  ·  "@ + duration_text(item.duration_ms as nat),
        url: unless_empty(web_url(item.uri@)),
        description: if album.len() == 0 {
            None
        } else {
            Some("*"@ + album + "*"@)
        },
        thumbnail: unless_empty(cover_url(item.covers@)),
    }
}

/// A text that is shown only where there is one.
fn non_empty(text: String) -> (kept: Option<String>)
    ensures
        text_of(kept) == unless_empty(text@),
{
    if text.as_str().is_empty() {
        None
    } else {
        Some(text)
    }
}

/// What is shown of an item.
pub fn describe(item: &AudioItem, device_name: &str) -> (now: NowPlaying)
    ensures
        now@ == shown(*item, device_name@),
{
    let artist = artist(&item.unique_fields);
    let album = album(&item.unique_fields);

    let mut status = item.name.clone();
    status.append(" · ");
    status.append(artist.as_str());

    let mut title = item.name.clone();
    if item.is_explicit {
        title.append(" 🅴");
    }

    let mut footer = "🎧 ".to_owned();
    footer.append(device_name);
    footer.append("  ·  ");
    footer.append(format_duration(item.duration_ms).as_str());

    let description = if album.as_str().is_empty() {
        None
    } else {
        let mut emphasised = "*".to_owned();
        emphasised.append(album.as_str());
        emphasised.append("*");
        Some(emphasised)
    };

    NowPlaying {
        status,
        author: artist,
        title,
        footer,
        url: non_empty(spotify_url(item.uri.as_str())),
        description,
        thumbnail: non_empty(largest_cover(&item.covers)),
    }
}

/// What the player reports.
pub enum PlayerEvent {
    /// Another item plays.
    TrackChanged(AudioItem),
    /// Nothing plays any more.
    Stopped,
    /// Something else.
    Other,
    /// There is no player any more.
    Ended,
}

/// What the bot does when the player reports something.
pub enum PlayerAction {
    /// It shows what plays, and listens to it.
    Show(NowPlaying),
    /// It listens to nothing.
    ClearPresence,
    /// Nothing.
    Ignore,
}

/// What a `PlayerAction` holds.
pub enum PlayerActionView {
    Show(NowPlayingView),
    ClearPresence,
    Ignore,
}

impl View for PlayerAction {
    type V = PlayerActionView;

    open spec fn view(&self) -> PlayerActionView {
        match self {
            PlayerAction::Show(now) => PlayerActionView::Show(now@),
            PlayerAction::ClearPresence => PlayerActionView::ClearPresence,
            PlayerAction::Ignore => PlayerActionView::Ignore,
        }
    }
}

/// What the bot does when the player reports something.
pub open spec fn action_for(event: PlayerEvent, device_name: Seq<char>) -> PlayerActionView {
    match event {
        PlayerEvent::TrackChanged(item) => PlayerActionView::Show(shown(item, device_name)),
        PlayerEvent::Stopped => PlayerActionView::ClearPresence,
        PlayerEvent::Other => PlayerActionView::Ignore,
        PlayerEvent::Ended => PlayerActionView::ClearPresence,
    }
}

/// What the bot does when the player reports something.
pub fn on_player_event(event: &PlayerEvent, device_name: &str) -> (action: PlayerAction)
    ensures
        action@ == action_for(*event, device_name@),
{
    match event {
        PlayerEvent::TrackChanged(item) => PlayerAction::Show(describe(item, device_name)),
        PlayerEvent::Stopped => PlayerAction::ClearPresence,
        PlayerEvent::Other => PlayerAction::Ignore,
        PlayerEvent::Ended => PlayerAction::ClearPresence,
    }
}

/// The cover that is shown is one of the covers, no other is wider, and no later one is
/// as wide.
pub proof fn law_widest_cover(covers: Seq<Cover>)
    requires
        covers.len() > 0,
    ensures
        exists|i: int|
            0 <= i < covers.len() && widest(covers) == Some(#[trigger] covers[i]) && (forall|j: int|
                0 <= j < covers.len() ==> (#[trigger] covers[j]).width <= covers[i].width) && (forall|j: int|
                i < j < covers.len() ==> (#[trigger] covers[j]).width < covers[i].width),
    decreases covers.len(),
{
    let last = covers.len() - 1;
    let rest = covers.drop_last();
    if covers.len() == 1 {
        assert(widest(rest) is None);
        assert(widest(covers) == Some(covers[0]));
    } else {
        law_widest_cover(rest);
        let i = choose|i: int|
            0 <= i < rest.len() && widest(rest) == Some(#[trigger] rest[i]) && (forall|j: int|
                0 <= j < rest.len() ==> (#[trigger] rest[j]).width <= rest[i].width) && (forall|j: int|
                i < j < rest.len() ==> (#[trigger] rest[j]).width < rest[i].width);
        let at = if covers[last].width >= rest[i].width {
            last
        } else {
            i
        };
        assert(widest(covers) == Some(covers[at]));
        assert forall|j: int| 0 <= j < covers.len() implies (#[trigger] covers[j]).width <= covers[at].width by {
            if j < last {
                assert(rest[j] == covers[j]);
            }
        }
        assert forall|j: int| at < j < covers.len() implies (#[trigger] covers[j]).width < covers[at].width by {
            if j < last {
                assert(rest[j] == covers[j]);
            }
        }
    }
}

/// An item of any kind is found on the web under its kind and its id.
pub proof fn law_web_url_of_an_item(kind: Seq<char>, id: Seq<char>)
    requires
        !kind.contains(':'),
    ensures
        web_url("spotify:"@ + kind + seq![':'] + id) == "https://open.spotify.com/"@ + kind + "/"@ + id,
{
    let uri = "spotify:"@ + kind + seq![':'] + id;
    let rest = kind + (seq![':'] + id);
    assert("spotify:"@.is_prefix_of(uri));
    assert(uri.skip("spotify:"@.len() as int) =~= rest);
    lemma_first_index_behind(kind, seq![':'] + id, ':');
    assert(rest.take(kind.len() as int) =~= kind);
    assert(rest.skip(kind.len() as int + 1) =~= id);
    assert(web_url(uri) =~= "https://open.spotify.com/"@ + kind + "/"@ + id);
}

/// The duration that is shown is the duration in whole seconds: the minutes are the
/// number in front of the colon, and the seconds are the two digits behind it, fewer
/// than sixty.
pub proof fn law_duration_reads_back(duration_ms: nat)
    ensures
        ({
            let text = duration_text(duration_ms);
            let colon = first_index(text, ':');
            let minutes = text.take(colon);
            let seconds = text.skip(colon + 1);
            &&& seconds.len() == 2
            &&& numeral_value(minutes, duration_ms) is Some
            &&& numeral_value(seconds, 59) is Some
            &&& numeral_value(minutes, duration_ms)->0 * 60 + numeral_value(seconds, 59)->0 == duration_ms / 1000
        }),
{
    reveal_strlit(":");
    reveal_strlit("0");
    let total = duration_ms / 1000;
    let minutes = decimal(total / 60);
    let seconds = two_digits(total % 60);
    let text = duration_text(duration_ms);
    lemma_decimal_digits(total / 60);
    assert(!minutes.contains(':')) by {
        if minutes.contains(':') {
            let i = choose|i: int| 0 <= i < minutes.len() && minutes[i] == ':';
            assert(is_digit(minutes[i]));
        }
    }
    assert(text =~= minutes + (":"@ + seconds));
    lemma_first_index_behind(minutes, ":"@ + seconds, ':');
    assert(text.take(minutes.len() as int) =~= minutes);
    assert(text.skip(minutes.len() as int + 1) =~= seconds);
    law_numeral_round_trip(total / 60, duration_ms);
    lemma_two_digits(total % 60);
}

/// Two digits stand for their number.
proof fn lemma_two_digits(number: nat)
    requires
        number < 60,
    ensures
        two_digits(number).len() == 2,
        numeral_value(two_digits(number), 59) == Some(number),
{
    reveal_strlit("0");
    let text = two_digits(number);
    lemma_decimal_digits(number);
    if number < 10 {
        assert(text =~= seq!['0', decimal(number)[0]]);
        assert(text.drop_last() =~= seq!['0']);
        assert(seq!['0'].drop_last() =~= Seq::<char>::empty());
        assert(digits_value(seq!['0']) == 0) by {
            assert(digits_value(seq!['0'].drop_last()) == 0);
        }
        assert(digits_value(text) == number);
        assert forall|i: int| 0 <= i < text.len() implies is_digit(#[trigger] text[i]) by {}
    } else {
        assert(decimal(number / 10).len() == 1);
        assert(is_digit(decimal(number)[0]));
        law_numeral_round_trip(number, 59);
    }
}

/// Two rows of texts are joined in a row by joining each and putting the separator between;
/// one text alone is left as it is.
pub proof fn law_rows_are_joined_one_after_the_other(left: Seq<String>, right: Seq<String>, separator: Seq<char>)
    requires
        left.len() > 0,
        right.len() > 0,
    ensures
        joined(left + right, separator) == joined(left, separator) + separator + joined(right, separator),
        left.len() == 1 ==> joined(left, separator) == left[0]@,
    decreases right.len(),
{
    let row = left + right;
    let rest = right.drop_last();
    assert(row.drop_last() =~= left + rest);
    assert(row.last() == right.last());
    if right.len() == 1 {
        assert(left + rest =~= left);
    } else {
        law_rows_are_joined_one_after_the_other(left, rest, separator);
        assert(joined(row, separator) =~= joined(left, separator) + separator + joined(right, separator));
    }
}

/// Names without a comma, joined, fall apart into themselves at the commas, with `lead` in
/// front of the first and a space in front of every other.
proof fn lemma_names_fall_apart(lead: Seq<char>, names: Seq<String>)
    requires
        names.len() > 0,
        !lead.contains(','),
        forall|i: int| 0 <= i < names.len() ==> !(#[trigger] names[i])@.contains(','),
    ensures
        split_on(lead + joined(names, ", "@), ',') == Seq::new(
            names.len(),
            |i: int|
                if i == 0 {
                    lead + names[0]@
                } else {
                    seq![' '] + names[i]@
                },
        ),
    decreases names.len(),
{
    reveal_strlit(", ");
    let first = lead + names[0]@;
    lemma_concat_lacks(lead, names[0]@, ',');
    if names.len() == 1 {
        lemma_split_on(first, Seq::empty(), ',');
        assert(split_on(first, ',') =~= Seq::new(
            1,
            |i: int|
                if i == 0 {
                    lead + names[0]@
                } else {
                    seq![' '] + names[i]@
                },
        ));
    } else {
        let head = names.take(1);
        let rest = names.skip(1);
        assert(names =~= head + rest);
        law_rows_are_joined_one_after_the_other(head, rest, ", "@);
        let behind = seq![' '] + joined(rest, ", "@);
        assert(lead + joined(names, ", "@) =~= first + seq![','] + behind);
        lemma_split_on(first, behind, ',');
        assert forall|i: int| 0 <= i < rest.len() implies !(#[trigger] rest[i])@.contains(',') by {
            assert(rest[i] == names[i + 1]);
        }
        lemma_names_fall_apart(seq![' '], rest);
        assert(split_on(lead + joined(names, ", "@), ',') =~= Seq::new(
            names.len(),
            |i: int|
                if i == 0 {
                    lead + names[0]@
                } else {
                    seq![' '] + names[i]@
                },
        ));
    }
}

/// Every artist of a track is named, in order: the author, parted at the commas, is the
/// first name and, each behind a space, all the others. A name with a comma would fall
/// apart itself.
pub proof fn law_every_artist_is_named(item: AudioItem, device_name: Seq<char>, artists: Vec<String>, album: String)
    requires
        item.unique_fields == (UniqueFields::Track { artists, album }),
        artists@.len() > 0,
        forall|i: int| 0 <= i < artists@.len() ==> !(#[trigger] artists@[i])@.contains(','),
    ensures
        ({
            let names = split_on(shown(item, device_name).author, ',');
            &&& names.len() == artists@.len()
            &&& names[0] == artists@[0]@
            &&& forall|i: int| 0 < i < artists@.len() ==> #[trigger] names[i] == seq![' '] + artists@[i]@
        }),
{
    lemma_names_fall_apart(Seq::empty(), artists@);
    assert(Seq::<char>::empty() + joined(artists@, ", "@) =~= joined(artists@, ", "@));
    assert(Seq::<char>::empty() + artists@[0]@ =~= artists@[0]@);
}

/// The artists of a track are named one after the other, whatever their names hold: where
/// they are those of two other tracks in a row, the author is the two authors in a row. One
/// artist alone is the author, and of no artists there is none.
pub proof fn law_authors_are_named_in_a_row(
    item: AudioItem,
    left: AudioItem,
    right: AudioItem,
    device_name: Seq<char>,
)
    requires
        item.unique_fields is Track,
        left.unique_fields is Track,
        right.unique_fields is Track,
    ensures
        item.unique_fields->Track_artists@ == left.unique_fields->Track_artists@ + right.unique_fields->Track_artists@
            && left.unique_fields->Track_artists@.len() > 0 && right.unique_fields->Track_artists@.len() > 0 ==> shown(
            item,
            device_name,
        ).author == shown(left, device_name).author + seq![',', ' '] + shown(right, device_name).author,
        item.unique_fields->Track_artists@.len() == 1 ==> shown(item, device_name).author
            == item.unique_fields->Track_artists@[0]@,
        item.unique_fields->Track_artists@.len() == 0 ==> shown(item, device_name).author.len() == 0,
{
    reveal_strlit(", ");
    assert(", "@ =~= seq![',', ' ']);
    let first = left.unique_fields->Track_artists@;
    let second = right.unique_fields->Track_artists@;
    if item.unique_fields->Track_artists@ == first + second && first.len() > 0 && second.len() > 0 {
        law_rows_are_joined_one_after_the_other(first, second, ", "@);
    }
}

/// A file of the user's own is by the artists that it names, or by an unknown one; an
/// episode is by its show.
pub proof fn law_author_without_a_catalogue(item: AudioItem, device_name: Seq<char>)
    ensures
        item.unique_fields matches UniqueFields::Local { artists: Some(artists), album } ==> shown(
            item,
            device_name,
        ).author == artists@,
        item.unique_fields matches UniqueFields::Local { artists: None, album } ==> shown(item, device_name).author
            == "Unknown artist"@,
        item.unique_fields matches UniqueFields::Episode { show_name } ==> shown(item, device_name).author
            == show_name@,
{
}

/// The bot listens to the name of the item, whole, and its author, whole; the title is the
/// name, and it is marked exactly where the item is explicit.
pub proof fn law_status_and_title_name_the_item(item: AudioItem, device_name: Seq<char>)
    ensures
        shown(item, device_name).status == item.name@ + " · "@ + shown(item, device_name).author,
        stripped(shown(item, device_name).title, item.name@) == Some(
            if item.is_explicit {
                " 🅴"@
            } else {
                Seq::empty()
            },
        ),
{
    law_stripping_undoes_prepending(item.name@, " 🅴"@);
    law_stripping_undoes_prepending(item.name@, Seq::empty());
    assert(item.name@ + Seq::<char>::empty() =~= item.name@);
}

/// The footer names the device, whole, and ends with the duration of the item.
pub proof fn law_footer_names_the_device(item: AudioItem, device_name: Seq<char>)
    ensures
        stripped(shown(item, device_name).footer, "🎧 "@ + device_name + "  ·  "@) == Some(
            duration_text(item.duration_ms as nat),
        ),
{
    law_stripping_undoes_prepending("🎧 "@ + device_name + "  ·  "@, duration_text(item.duration_ms as nat));
}

/// The album is shown whole between asterisks, and there is no description exactly where
/// there is no album to name.
pub proof fn law_description_names_the_album(item: AudioItem, device_name: Seq<char>, album: String)
    requires
        item.unique_fields matches UniqueFields::Track { artists, album: a } ==> a == album,
        item.unique_fields matches UniqueFields::Local { artists, album: a } ==> a == Some(album),
        !(item.unique_fields is Episode),
    ensures
        album@.len() > 0 ==> shown(item, device_name).description == Some(seq!['*'] + album@ + seq!['*']),
        album@.len() == 0 ==> shown(item, device_name).description is None,
{
    reveal_strlit("*");
    assert("*"@ =~= seq!['*']);
}

/// An episode, and a file that names no album, have no description.
pub proof fn law_no_album_no_description(item: AudioItem, device_name: Seq<char>)
    requires
        item.unique_fields is Episode || (item.unique_fields matches UniqueFields::Local { artists, album } && album
            is None),
    ensures
        shown(item, device_name).description is None,
{
}

/// What is shown of an item leads to the page of its kind and its id, both whole; an item
/// whose URI is not one of Spotify's leads nowhere.
pub proof fn law_item_leads_to_its_page(item: AudioItem, device_name: Seq<char>, kind: Seq<char>, id: Seq<char>)
    requires
        !kind.contains(':'),
    ensures
        item.uri@ == "spotify:"@ + kind + seq![':'] + id ==> shown(item, device_name).url == Some(
            "https://open.spotify.com/"@ + kind + seq!['/'] + id,
        ),
        item.uri@ == "spotify:"@ + kind ==> shown(item, device_name).url == Some(
            "https://open.spotify.com/"@ + kind,
        ),
        stripped(item.uri@, "spotify:"@) is None ==> shown(item, device_name).url is None,
{
    reveal_strlit("/");
    assert("/"@ =~= seq!['/']);
    reveal_strlit("https://open.spotify.com/");
    law_web_url_of_an_item(kind, id);
    law_stripping_undoes_prepending("spotify:"@, kind);
    law_one_character_is_replaced(kind, Seq::empty(), ':', "/"@);
    assert("https://open.spotify.com/"@.len() > 0);
}

/// The picture that is shown is the widest cover there is, the last one of several; there is
/// none exactly where there is no cover, or where that cover has no address.
pub proof fn law_picture_is_the_widest_cover(item: AudioItem, device_name: Seq<char>)
    ensures
        item.covers@.len() == 0 ==> shown(item, device_name).thumbnail is None,
        forall|i: int|
            0 <= i < item.covers@.len() && (forall|j: int|
                0 <= j < item.covers@.len() ==> (#[trigger] item.covers@[j]).width <= item.covers@[i].width) && (forall|j: int|
                i < j < item.covers@.len() ==> (#[trigger] item.covers@[j]).width < item.covers@[i].width) ==> (
            #[trigger] item.covers@[i]).url@.len() > 0 && shown(item, device_name).thumbnail == Some(
                item.covers@[i].url@,
            ) || item.covers@[i].url@.len() == 0 && shown(item, device_name).thumbnail is None,
{
    let covers = item.covers@;
    if covers.len() > 0 {
        law_widest_cover(covers);
        let best = choose|i: int|
            0 <= i < covers.len() && widest(covers) == Some(#[trigger] covers[i]) && (forall|j: int|
                0 <= j < covers.len() ==> (#[trigger] covers[j]).width <= covers[i].width) && (forall|j: int|
                i < j < covers.len() ==> (#[trigger] covers[j]).width < covers[i].width);
        assert forall|i: int|
            0 <= i < covers.len() && (forall|j: int|
                0 <= j < covers.len() ==> (#[trigger] covers[j]).width <= covers[i].width) && (forall|j: int|
                i < j < covers.len() ==> (#[trigger] covers[j]).width < covers[i].width) implies (
        #[trigger] covers[i]).url@.len() > 0 && shown(item, device_name).thumbnail == Some(covers[i].url@)
            || covers[i].url@.len() == 0 && shown(item, device_name).thumbnail is None by {
            assert(covers[best].width <= covers[i].width);
            assert(covers[i].width <= covers[best].width);
            assert(i == best);
        }
    }
}

/// A duration is written with digits alone around the colon, and without zeros in front of
/// the minutes.
pub proof fn law_duration_is_written_plainly(duration_ms: nat)
    ensures
        ({
            let text = duration_text(duration_ms);
            let colon = first_index(text, ':');
            &&& colon == text.len() - 3
            &&& forall|i: int| 0 <= i < text.len() && i != colon ==> '0' <= #[trigger] text[i] <= '9'
            &&& text[0] == '0' ==> colon == 1
        }),
{
    reveal_strlit(":");
    reveal_strlit("0");
    let total = duration_ms / 1000;
    let minutes = decimal(total / 60);
    let seconds = two_digits(total % 60);
    let text = duration_text(duration_ms);
    lemma_decimal_digits(total / 60);
    lemma_decimal_digits(total % 60);
    lemma_two_digits(total % 60);
    law_decimal_has_no_leading_zero(total / 60);
    assert(!minutes.contains(':')) by {
        if minutes.contains(':') {
            let i = choose|i: int| 0 <= i < minutes.len() && minutes[i] == ':';
            assert(is_digit(minutes[i]));
        }
    }
    assert(text =~= minutes + (":"@ + seconds));
    lemma_first_index_behind(minutes, ":"@ + seconds, ':');
    assert forall|i: int| 0 <= i < text.len() && i != minutes.len() implies '0' <= #[trigger] text[i] <= '9' by {
        if i < minutes.len() {
            assert(is_digit(minutes[i]));
        } else if total % 60 < 10 {
            assert(seconds =~= seq!['0', decimal(total % 60)[0]]);
            assert(is_digit(decimal(total % 60)[0]));
        } else {
            assert(is_digit(decimal(total % 60)[i - minutes.len() - 1]));
        }
    }
    assert(text[0] == minutes[0]);
}

/// Every item that comes is shown; nothing is listened to once nothing plays or the player
/// is gone; anything else makes no difference.
pub proof fn law_player_is_followed(item: AudioItem, device_name: Seq<char>)
    ensures
        action_for(PlayerEvent::TrackChanged(item), device_name) == PlayerActionView::Show(shown(item, device_name)),
        action_for(PlayerEvent::Stopped, device_name) is ClearPresence,
        action_for(PlayerEvent::Ended, device_name) is ClearPresence,
        action_for(PlayerEvent::Other, device_name) is Ignore,
{
}

/// What is shown holds what its texts are, each in its own place.
pub proof fn law_shown_texts_are_whole(now: NowPlaying)
    ensures
        now@.status == now.status@,
        now@.author == now.author@,
        now@.title == now.title@,
        now@.footer == now.footer@,
        now@.url == text_of(now.url),
        now@.description == text_of(now.description),
        now@.thumbnail == text_of(now.thumbnail),
        PlayerAction::Show(now)@ == PlayerActionView::Show(now@),
        PlayerAction::ClearPresence@ is ClearPresence,
        PlayerAction::Ignore@ is Ignore,
{
}

} // verus!
