//! Image references: an optional account and an image name.
//!
//! A reference is either `name` or `account/name`. It is split at its first
//! `/`; a reference that holds a second `/` names no image.

use vstd::prelude::*;

verus! {

/// What an [`Image`] stands for: the account, if the reference named one, and
/// the image name.
pub struct ImageView {
    pub account: Option<Seq<char>>,
    pub name: Seq<char>,
}

/// A container image, owned by the authenticated user or by an account.
pub struct Image {
    account: Option<String>,
    name: String,
}

impl View for Image {
    type V = ImageView;

    closed spec fn view(&self) -> ImageView {
        ImageView {
            account: match self.account {
                Some(a) => Some(a@),
                None => None,
            },
            name: self.name@,
        }
    }
}

/// The image that a reference names, if it names one.
///
/// Without a `/` the whole reference is the name. Otherwise the text before
/// the first `/` is the account and the text after it is the name, which must
/// not hold another `/`.
pub open spec fn parse(reference: Seq<char>) -> Option<ImageView> {
    match reference.index_of_first('/') {
        None => Some(ImageView { account: None, name: reference }),
        Some(at) => {
            let rest = reference.skip(at + 1);
            if rest.contains('/') {
                None
            } else {
                Some(ImageView { account: Some(reference.take(at)), name: rest })
            }
        },
    }
}

/// A reference without any `/` names an image of the user's own, and the
/// whole reference is its name.
pub proof fn lemma_parse_plain_name(reference: Seq<char>)
    requires
        !reference.contains('/'),
    ensures
        parse(reference) == Some(ImageView { account: None, name: reference }),
{
    reference.index_of_first_ensures('/');
}

/// A reference with exactly one `/` names the image to the right of it, in the
/// account to the left of it.
pub proof fn lemma_parse_account_and_name(account: Seq<char>, name: Seq<char>)
    requires
        !account.contains('/'),
        !name.contains('/'),
    ensures
        parse(account + seq!['/'] + name) == Some(
            ImageView { account: Some(account), name: name },
        ),
{
    let reference = account + seq!['/'] + name;
    let at = account.len() as int;
    assert(forall|j: int| 0 <= j < at ==> reference[j] != '/');
    lemma_first_slash(reference, at);
    assert(reference.take(at) =~= account);
    assert(reference.skip(at + 1) =~= name);
}

/// A reference with two or more `/` names no image.
pub proof fn lemma_parse_rejects_second_slash(reference: Seq<char>, i: int, j: int)
    requires
        0 <= i < j < reference.len(),
        reference[i] == '/',
        reference[j] == '/',
    ensures
        parse(reference) is None,
{
    reference.index_of_first_ensures('/');
    let at = reference.index_of_first('/').unwrap();
    let rest = reference.skip(at + 1);
    assert(rest[j - (at + 1)] == '/');
}

/// The first `/` of a reference is at `at` when one stands there and none
/// stands before it.
proof fn lemma_first_slash(reference: Seq<char>, at: int)
    requires
        0 <= at < reference.len(),
        reference[at] == '/',
        forall|j: int| 0 <= j < at ==> reference[j] != '/',
    ensures
        reference.index_of_first('/') == Some(at),
{
    reference.index_of_first_ensures('/');
}

impl Image {
    /// Reads an image reference: `name`, or `account/name`.
    ///
    /// Returns `None` for a reference that holds more than one `/`.
    pub fn new(name: String) -> (image: Option<Image>)
        ensures
            match image {
                Some(image) => parse(name@) == Some(image@),
                None => parse(name@) is None,
            },
    {
        let reference = name.as_str();
        let len = reference.unicode_len();
        // `len` until a `/` is met, then its place.
        let mut first: usize = len;
        let mut i: usize = 0;
        for c in chars: reference.chars()
            invariant
                i == chars.index(),
                chars.seq() == name@,
                len == name@.len(),
                first <= len,
                first == len ==> forall|j: int| 0 <= j < i ==> name@[j] != '/',
                first < len ==> first < i && name@[first as int] == '/',
                first < len ==> forall|j: int| 0 <= j < i && j != first ==> name@[j] != '/',
        {
            if c == '/' {
                if first < len {
                    proof {
                        lemma_parse_rejects_second_slash(name@, first as int, i as int);
                    }
                    return None;
                }
                first = i;
            }
            i = i + 1;
        }
        if first == len {
            proof {
                lemma_parse_plain_name(name@);
            }
            Some(Image { account: None, name })
        } else {
            let account = reference.substring_char(0, first).to_owned();
            let rest = reference.substring_char(first + 1, len).to_owned();
            proof {
                lemma_first_slash(name@, first as int);
                let tail = name@.skip(first + 1);
                assert(forall|j: int| 0 <= j < tail.len() ==> #[trigger] tail[j] != '/');
            }
            Some(Image { account: Some(account), name: rest })
        }
    }

    /// The account that owns the image; `None` for an image of the user's own.
    pub fn account(&self) -> (account: Option<&str>)
        ensures
            match account {
                Some(a) => self@.account == Some(a@),
                None => self@.account is None,
            },
    {
        match &self.account {
            Some(a) => Some(a.as_str()),
            None => None,
        }
    }

    /// The image name.
    pub fn name(&self) -> (name: &str)
        ensures
            name@ == self@.name,
    {
        self.name.as_str()
    }
}

} // verus!
