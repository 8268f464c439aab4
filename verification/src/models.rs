//! The domain model: receivers, settings and photos.

use crate::errors::ModelError;
use crate::text::same_text;
use vstd::multiset::Multiset;
use vstd::prelude::*;
use vstd::seq_lib::{to_multiset_build, to_multiset_contains, to_multiset_len, to_multiset_remove};
use vstd::std_specs::cmp::PartialEqSpecImpl;
use vstd::string::StringExecFns;

verus! {

/// A configurable component of the backend.
#[derive(Debug, Clone, Copy, PartialEq, Eq, Structural)]
pub enum Receiver {
    /// The camera.
    Camera,
    /// The object-detection model.
    Model,
    /// The database.
    Db,
    /// The file system.
    Fs,
}

impl Receiver {
    /// The lowercase token that stands for this receiver on the wire and in
    /// commands.
    pub open spec fn token(self) -> Seq<char> {
        match self {
            Receiver::Camera => "camera"@,
            Receiver::Model => "model"@,
            Receiver::Db => "db"@,
            Receiver::Fs => "fs"@,
        }
    }

    /// The sign that introduces this receiver's settings in a reply.
    pub open spec fn marker(self) -> Seq<char> {
        match self {
            Receiver::Camera => "\u{1F4F7}"@,
            Receiver::Model => "\u{1F9E0}"@,
            Receiver::Db => "\u{26C1}"@,
            Receiver::Fs => "\u{1F4C1}"@,
        }
    }

    /// The receiver that a token stands for, if it stands for one.
    pub open spec fn parse(token: Seq<char>) -> Option<Receiver> {
        if token == Receiver::Camera.token() {
            Some(Receiver::Camera)
        } else if token == Receiver::Model.token() {
            Some(Receiver::Model)
        } else if token == Receiver::Db.token() {
            Some(Receiver::Db)
        } else if token == Receiver::Fs.token() {
            Some(Receiver::Fs)
        } else {
            None
        }
    }

    /// The message carried by the error for a token that names no receiver.
    pub open spec fn rejection(token: Seq<char>) -> Seq<char> {
        token + " is not a valid receiver"@
    }

    /// Every receiver, in the order in which replies list them.
    pub fn all() -> (table: [Receiver; 4])
        ensures
            table@ == seq![Receiver::Camera, Receiver::Model, Receiver::Db, Receiver::Fs],
            forall|r: Receiver| table@.contains(r),
    {
        let table = [Receiver::Camera, Receiver::Model, Receiver::Db, Receiver::Fs];
        assert forall|r: Receiver| table@.contains(r) by {
            match r {
                Receiver::Camera => assert(table@[0] == r),
                Receiver::Model => assert(table@[1] == r),
                Receiver::Db => assert(table@[2] == r),
                Receiver::Fs => assert(table@[3] == r),
            }
        }
        table
    }

    /// The token of this receiver as a string slice.
    pub fn as_str(&self) -> (token: &'static str)
        ensures
            token@ == self.token(),
    {
        match self {
            Receiver::Camera => "camera",
            Receiver::Model => "model",
            Receiver::Db => "db",
            Receiver::Fs => "fs",
        }
    }

    /// The marker of this receiver as a string slice.
    pub fn marker_str(&self) -> (marker: &'static str)
        ensures
            marker@ == self.marker(),
    {
        match self {
            Receiver::Camera => "\u{1F4F7}",
            Receiver::Model => "\u{1F9E0}",
            Receiver::Db => "\u{26C1}",
            Receiver::Fs => "\u{1F4C1}",
        }
    }

    /// Renders the token of this receiver.
    pub fn to_string(&self) -> (out: String)
        ensures
            out@ == self.token(),
    {
        self.as_str().to_owned()
    }

    /// Reads a receiver from its token. Any other text is rejected with a
    /// message that quotes it.
    pub fn try_from(value: String) -> (result: Result<Receiver, ModelError>)
        ensures
            match result {
                Ok(receiver) => Receiver::parse(value@) == Some(receiver),
                Err(ModelError::InvalidReceiver(message)) => {
                    &&& Receiver::parse(value@) is None
                    &&& message@ == Receiver::rejection(value@)
                },
                Err(ModelError::InvalidSettings) => false,
            },
    {
        let table = Receiver::all();
        let mut i: usize = 0;
        while i < table.len()
            invariant
                i <= 4,
                table@ == seq![Receiver::Camera, Receiver::Model, Receiver::Db, Receiver::Fs],
                forall|j: int| 0 <= j < i ==> table@[j].token() != value@,
            decreases 4 - i,
        {
            if same_text(value.as_str(), table[i].as_str()) {
                proof {
                    lemma_tokens_differ();
                }
                return Ok(table[i]);
            }
            i += 1;
        }
        assert(table@[0].token() != value@);
        assert(table@[1].token() != value@);
        assert(table@[2].token() != value@);
        assert(table@[3].token() != value@);
        Err(ModelError::InvalidReceiver(value.concat(" is not a valid receiver")))
    }
}

/// The settings of one receiver, in the order in which they are shown.
#[derive(Debug)]
pub struct Settings {
    /// The receiver that the settings belong to.
    receiver: Receiver,
    /// The settings as pairs of a name and a value.
    settings: Vec<(String, String)>,
}

/// What a [`Settings`] value holds: a receiver and pairs of a name and a
/// value, in their order.
pub struct SettingsView {
    /// The receiver that the settings belong to.
    pub receiver: Receiver,
    /// The pairs of a name and a value.
    pub entries: Seq<(Seq<char>, Seq<char>)>,
}

/// The pairs of texts that a sequence of pairs of strings holds.
pub open spec fn pairs(strings: Seq<(String, String)>) -> Seq<(Seq<char>, Seq<char>)> {
    Seq::new(strings.len(), |i: int| (strings[i].0@, strings[i].1@))
}

/// The line that shows one setting: the name, a colon, a space, the value and
/// a line feed.
pub open spec fn setting_line(entry: (Seq<char>, Seq<char>)) -> Seq<char> {
    entry.0 + ": "@ + entry.1 + "\n"@
}

/// The lines that show a sequence of settings, one after the other.
pub open spec fn setting_lines(entries: Seq<(Seq<char>, Seq<char>)>) -> Seq<char>
    decreases entries.len(),
{
    if entries.len() == 0 {
        Seq::empty()
    } else {
        setting_lines(entries.drop_last()) + setting_line(entries.last())
    }
}

impl SettingsView {
    /// Two values are the same settings where they belong to the same receiver
    /// and hold the same pairs, each as often as the other holds it. The
    /// order of the pairs does not count.
    pub open spec fn equivalent(self, other: SettingsView) -> bool {
        &&& self.receiver == other.receiver
        &&& self.entries.to_multiset() == other.entries.to_multiset()
    }

    /// The text that shows these settings: a heading with the receiver's
    /// marker, then one line for each setting, in their order.
    pub open spec fn rendered(self) -> Seq<char> {
        "Settings for "@ + self.receiver.marker() + " are:\n"@ + setting_lines(self.entries)
    }
}

impl View for Settings {
    type V = SettingsView;

    closed spec fn view(&self) -> SettingsView {
        SettingsView {
            receiver: self.receiver,
            entries: pairs(self.settings@),
        }
    }
}

impl Settings {
    /// Makes the settings of a receiver from pairs of a name and a value.
    pub fn new(receiver: Receiver, entries: Vec<(String, String)>) -> (settings: Settings)
        ensures
            settings@.receiver == receiver,
            settings@.entries == pairs(entries@),
    {
        Settings { receiver, settings: entries }
    }

    /// The receiver that the settings belong to.
    pub fn receiver(&self) -> (receiver: Receiver)
        ensures
            receiver == self@.receiver,
    {
        self.receiver
    }

    /// The pairs of a name and a value, in their order.
    pub fn entries(&self) -> (entries: &Vec<(String, String)>)
        ensures
            pairs(entries@) == self@.entries,
    {
        &self.settings
    }

    /// Renders the settings for a reply: a heading with the receiver's marker,
    /// then one line for each setting, in their order.
    pub fn to_string(&self) -> (out: String)
        ensures
            out@ == self@.rendered(),
    {
        let mut out = "Settings for ".to_owned();
        out.append(self.receiver.marker_str());
        out.append(" are:\n");
        let ghost heading = out@;
        let mut i: usize = 0;
        while i < self.settings.len()
            invariant
                i <= self.settings@.len(),
                out@ == heading + setting_lines(self@.entries.take(i as int)),
            decreases self.settings@.len() - i,
        {
            let ghost shown = self@.entries.take(i as int);
            let ghost next = self@.entries.take(i + 1);
            out.append(self.settings[i].0.as_str());
            out.append(": ");
            out.append(self.settings[i].1.as_str());
            out.append("\n");
            proof {
                assert(next.drop_last() =~= shown);
                assert(next.last() == self@.entries[i as int]);
                assert(out@ =~= heading + setting_lines(next));
            }
            i += 1;
        }
        assert(self@.entries.take(i as int) =~= self@.entries);
        out
    }
}

/// The pairs of `right` at the positions that `rest` lists.
spec fn picked(right: Seq<(Seq<char>, Seq<char>)>, rest: Seq<usize>) -> Seq<(Seq<char>, Seq<char>)> {
    Seq::new(rest.len(), |k: int| right[rest[k] as int])
}

/// A pair that occurs more often among the first pairs of a sequence than in
/// a multiset shows that the sequence does not make that multiset.
proof fn lemma_surplus(
    left: Seq<(Seq<char>, Seq<char>)>,
    upto: int,
    other: Multiset<(Seq<char>, Seq<char>)>,
)
    requires
        0 <= upto <= left.len(),
        exists|pair: (Seq<char>, Seq<char>)|
            left.take(upto).to_multiset().count(pair) > other.count(pair),
    ensures
        left.to_multiset() != other,
{
    let pair = choose|pair: (Seq<char>, Seq<char>)|
        left.take(upto).to_multiset().count(pair) > other.count(pair);
    vstd::seq_lib::lemma_multiset_commutative(left.take(upto), left.skip(upto));
    assert(left.take(upto) + left.skip(upto) =~= left);
    assert(left.to_multiset().count(pair) >= left.take(upto).to_multiset().count(pair));
}

/// Tells whether two pairs hold the same name and the same value.
fn same_pair(left: &(String, String), right: &(String, String)) -> (same: bool)
    ensures
        same == (left.0@ == right.0@ && left.1@ == right.1@),
{
    same_text(left.0.as_str(), right.0.as_str()) && same_text(left.1.as_str(), right.1.as_str())
}

/// Tells whether two lists hold the same pairs, each as often as the other
/// holds it.
fn same_entries(left: &Vec<(String, String)>, right: &Vec<(String, String)>) -> (same: bool)
    ensures
        same == (pairs(left@).to_multiset() == pairs(right@).to_multiset()),
{
    let ghost a = pairs(left@);
    let ghost b = pairs(right@);
    proof {
        to_multiset_len(a);
        to_multiset_len(b);
    }
    if left.len() != right.len() {
        return false;
    }
    let mut rest: Vec<usize> = Vec::new();
    let mut n: usize = 0;
    while n < right.len()
        invariant
            n <= right@.len(),
            rest@.len() == n,
            forall|k: int| 0 <= k < n ==> rest@[k] == k,
        decreases right@.len() - n,
    {
        rest.push(n);
        n += 1;
    }
    assert(picked(b, rest@) =~= b);
    proof {
        to_multiset_len(a.take(0));
        vstd::multiset::lemma_multiset_empty_len(a.take(0).to_multiset());
    }
    assert(a.take(0).to_multiset().add(picked(b, rest@).to_multiset()) =~= b.to_multiset());
    let mut i: usize = 0;
    while i < left.len()
        invariant
            a == pairs(left@),
            b == pairs(right@),
            left@.len() == right@.len(),
            i <= left@.len(),
            rest@.len() == left@.len() - i,
            forall|k: int| 0 <= k < rest@.len() ==> rest@[k] < right@.len(),
            a.take(i as int).to_multiset().add(picked(b, rest@).to_multiset()) == b.to_multiset(),
        decreases left@.len() - i,
    {
        let ghost wanted = a[i as int];
        let mut j: usize = 0;
        while j < rest.len() && !same_pair(&left[i], &right[rest[j]])
            invariant
                a == pairs(left@),
                b == pairs(right@),
                i < left@.len(),
                wanted == a[i as int],
                j <= rest@.len(),
                forall|k: int| 0 <= k < rest@.len() ==> rest@[k] < right@.len(),
                forall|k: int| 0 <= k < j ==> picked(b, rest@)[k] != wanted,
            decreases rest@.len() - j,
        {
            j += 1;
        }
        let ghost before = picked(b, rest@);
        if j == rest.len() {
            proof {
                to_multiset_contains(before, wanted);
                assert(!before.contains(wanted));
                assert(a.take(i + 1) =~= a.take(i as int).push(wanted));
                to_multiset_build(a.take(i as int), wanted);
                assert(a.take(i + 1).to_multiset().count(wanted) > b.to_multiset().count(wanted));
                lemma_surplus(a, i + 1, b.to_multiset());
            }
            return false;
        }
        rest.remove(j);
        proof {
            assert(picked(b, rest@) =~= before.remove(j as int));
            to_multiset_remove(before, j as int);
            to_multiset_contains(before, wanted);
            assert(before.contains(wanted));
            assert(a.take(i + 1) =~= a.take(i as int).push(wanted));
            to_multiset_build(a.take(i as int), wanted);
            assert(a.take(i + 1).to_multiset().add(picked(b, rest@).to_multiset())
                =~= a.take(i as int).to_multiset().add(before.to_multiset()));
        }
        i += 1;
    }
    proof {
        assert(a.take(i as int) =~= a);
        to_multiset_len(picked(b, rest@));
        vstd::multiset::lemma_multiset_empty_len(picked(b, rest@).to_multiset());
        assert(a.to_multiset().add(Multiset::empty()) =~= a.to_multiset());
    }
    true
}

impl PartialEq for Settings {
    /// Tells whether two values are the same settings, whatever the order of
    /// their pairs.
    fn eq(&self, other: &Settings) -> (same: bool) {
        self.receiver == other.receiver && same_entries(&self.settings, &other.settings)
    }
}

impl PartialEqSpecImpl for Settings {
    open spec fn obeys_eq_spec() -> bool {
        true
    }

    open spec fn eq_spec(&self, other: &Settings) -> bool {
        self@.equivalent(other@)
    }
}

/// A photo of an object: its size and the picture as base64 text.
#[derive(Debug, PartialEq, Eq)]
pub struct ObjectPhoto {
    /// The height of the picture.
    height: u32,
    /// The width of the picture.
    width: u32,
    /// The picture, encoded in base64.
    image: String,
}

/// What an [`ObjectPhoto`] value holds.
pub struct PhotoView {
    /// The height of the picture.
    pub height: u32,
    /// The width of the picture.
    pub width: u32,
    /// The picture, encoded in base64.
    pub image: Seq<char>,
}

impl View for ObjectPhoto {
    type V = PhotoView;

    closed spec fn view(&self) -> PhotoView {
        PhotoView { height: self.height, width: self.width, image: self.image@ }
    }
}

impl ObjectPhoto {
    /// Makes a photo from its size and its picture in base64.
    pub fn new(height: u32, width: u32, image: String) -> (photo: ObjectPhoto)
        ensures
            photo@ == (PhotoView { height, width, image: image@ }),
    {
        ObjectPhoto { height, width, image }
    }

    /// The height of the picture.
    pub fn height(&self) -> (height: u32)
        ensures
            height == self@.height,
    {
        self.height
    }

    /// The width of the picture.
    pub fn width(&self) -> (width: u32)
        ensures
            width == self@.width,
    {
        self.width
    }

    /// The picture, encoded in base64.
    pub fn image(&self) -> (image: &str)
        ensures
            image@ == self@.image,
    {
        self.image.as_str()
    }
}

/// No two receivers share a token.
pub proof fn lemma_tokens_differ()
    ensures
        forall|a: Receiver, b: Receiver| a.token() == b.token() ==> a == b,
{
    reveal_strlit("camera");
    reveal_strlit("model");
    reveal_strlit("db");
    reveal_strlit("fs");
    assert("camera"@.len() == 6);
    assert("model"@.len() == 5);
    assert("db"@[0] == 'd');
    assert("fs"@[0] == 'f');
}

/// Reading the token of a receiver gives that receiver back, and a token that
/// reads as a receiver is that receiver's token: the two directions of the
/// table agree.
pub proof fn lemma_receiver_round_trip(receiver: Receiver, token: Seq<char>)
    ensures
        Receiver::parse(receiver.token()) == Some(receiver),
        Receiver::parse(token) == Some(receiver) <==> token == receiver.token(),
{
    lemma_tokens_differ();
}

} // verus!
