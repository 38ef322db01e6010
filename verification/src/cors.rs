//! Which other origins may talk to the server from a browser.

use vstd::prelude::*;
use vstd::utf8::encode_utf8;

verus! {

/// How long a browser may keep the answer to a preflight request, in seconds.
pub const CORS_MAX_AGE_SECS: u64 = 3600;

/// What is allowed: anything, or what is on a list.
#[derive(Debug)]
pub enum Allowed<T> {
    Any,
    Only(Vec<T>),
}

/// The contents of an [`Allowed`].
pub enum AllowedView<T> {
    Any,
    Only(Seq<T>),
}

impl<T: DeepView> View for Allowed<T> {
    type V = AllowedView<T::V>;

    open spec fn view(&self) -> AllowedView<T::V> {
        match self {
            Allowed::Any => AllowedView::Any,
            Allowed::Only(list) => AllowedView::Only(list.deep_view()),
        }
    }
}

/// The rules for requests from another origin. Origins are held as the bytes of the header value
/// that a browser would send.
#[derive(Debug)]
pub struct CorsPolicy {
    pub origins: Allowed<Vec<u8>>,
    pub methods: Allowed<&'static str>,
    pub headers: Allowed<&'static str>,
    pub exposed_headers: Allowed<&'static str>,
    pub allow_credentials: bool,
    pub max_age_secs: u64,
}

/// The contents of a [`CorsPolicy`].
pub struct CorsPolicyView {
    pub origins: AllowedView<Seq<u8>>,
    pub methods: AllowedView<Seq<char>>,
    pub headers: AllowedView<Seq<char>>,
    pub exposed_headers: AllowedView<Seq<char>>,
    pub allow_credentials: bool,
    pub max_age_secs: u64,
}

impl View for CorsPolicy {
    type V = CorsPolicyView;

    open spec fn view(&self) -> CorsPolicyView {
        CorsPolicyView {
            origins: self.origins@,
            methods: self.methods@,
            headers: self.headers@,
            exposed_headers: self.exposed_headers@,
            allow_credentials: self.allow_credentials,
            max_age_secs: self.max_age_secs,
        }
    }
}

/// Whether a text can be the value of a header: no ASCII control character but the tab.
pub open spec fn header_text(text: Seq<char>) -> bool {
    forall|i: int| 0 <= i < text.len() ==> header_char(#[trigger] text[i])
}

/// Whether a character can stand in the value of a header.
pub open spec fn header_char(c: char) -> bool {
    c == '\t' || (' ' <= c && c != '\x7f')
}

/// The origins on the list that can be the value of a header, in the order of the list.
pub open spec fn usable_origins(origins: Seq<Seq<char>>) -> Seq<Seq<u8>> {
    origins.filter(|origin: Seq<char>| header_text(origin)).map_values(
        |origin: Seq<char>| encode_utf8(origin),
    )
}

/// The rules that follow from a list of origins: none on the list opens the server to all.
pub open spec fn cors_policy(origins: Seq<Seq<char>>) -> CorsPolicyView {
    if origins.len() == 0 {
        CorsPolicyView {
            origins: AllowedView::Any,
            methods: AllowedView::Any,
            headers: AllowedView::Any,
            exposed_headers: AllowedView::Any,
            allow_credentials: false,
            max_age_secs: CORS_MAX_AGE_SECS,
        }
    } else {
        CorsPolicyView {
            origins: AllowedView::Only(usable_origins(origins)),
            methods: AllowedView::Only(seq!["GET"@, "POST"@, "OPTIONS"@]),
            headers: AllowedView::Only(seq!["content-type"@, "authorization"@]),
            exposed_headers: AllowedView::Only(seq!["x-request-id"@]),
            allow_credentials: false,
            max_age_secs: CORS_MAX_AGE_SECS,
        }
    }
}

/// Whether a list of origins holds the wildcard, which may not stand on a list.
pub open spec fn has_wildcard(origins: Seq<Seq<char>>) -> bool {
    origins.contains("*"@)
}

/// Whether a list of origins holds the wildcard.
pub fn lists_wildcard_origin(origins: &Vec<String>) -> (r: bool)
    ensures
        r == has_wildcard(origins.deep_view()),
        r <==> (exists|i: int| 0 <= i < origins@.len() && (#[trigger] origins@[i])@ == "*"@),
{
    let wildcard = "*".to_owned();
    let ghost texts = origins.deep_view();
    let mut i: usize = 0;
    while i < origins.len()
        invariant
            i <= origins.len(),
            texts == origins.deep_view(),
            wildcard@ == "*"@,
            forall|j: int| 0 <= j < i ==> #[trigger] texts[j] != "*"@,
            forall|j: int| 0 <= j < i ==> (#[trigger] origins@[j])@ != "*"@,
        decreases origins.len() - i,
    {
        if origins[i] == wildcard {
            proof {
                assert(texts[i as int] == "*"@);
                assert(origins@[i as int]@ == "*"@);
            }
            return true;
        }
        proof {
            assert(texts[i as int] == origins[i as int]@);
        }
        i = i + 1;
    }
    false
}

/// What `http` gives where a text cannot be the value of a header.
#[verifier::external_type_specification]
#[verifier::external_body]
pub struct ExInvalidHeaderValue(http::header::InvalidHeaderValue);

/// The bytes of a header value, by `http::HeaderValue::from_str`.
///
/// Claimed of it: it refuses a text if and only if one of its characters is an ASCII control
/// character other than the tab, and otherwise holds the text in UTF-8.
#[verifier::external_body]
fn header_value(text: &str) -> (r: Result<Vec<u8>, http::header::InvalidHeaderValue>)
    ensures
        r is Ok <==> header_text(text@),
        r matches Ok(bytes) ==> bytes@ == encode_utf8(text@),
{
    match http::HeaderValue::from_str(text) {
        Ok(value) => Ok(value.as_bytes().to_vec()),
        Err(error) => Err(error),
    }
}

/// One more origin on the list adds itself if it is usable, and nothing otherwise.
pub proof fn usable_origins_push(origins: Seq<Seq<char>>, origin: Seq<char>)
    ensures
        usable_origins(origins.push(origin)) == if header_text(origin) {
            usable_origins(origins).push(encode_utf8(origin))
        } else {
            usable_origins(origins)
        },
{
    reveal(Seq::filter);
    assert(origins.push(origin).drop_last() =~= origins);
    assert(usable_origins(origins.push(origin)) =~= if header_text(origin) {
        usable_origins(origins).push(encode_utf8(origin))
    } else {
        usable_origins(origins)
    });
}

fn admit_origins(allowed_origins: &Vec<String>) -> (r: Vec<Vec<u8>>)
    ensures
        r.deep_view() == usable_origins(allowed_origins.deep_view()),
{
    let ghost origins = allowed_origins.deep_view();
    let mut admitted: Vec<Vec<u8>> = Vec::new();
    let mut i: usize = 0;
    proof {
        reveal(Seq::filter);
        assert(usable_origins(origins.take(0)) =~= Seq::<Seq<u8>>::empty());
    }
    while i < allowed_origins.len()
        invariant
            i <= allowed_origins.len(),
            origins == allowed_origins.deep_view(),
            admitted.deep_view() == usable_origins(origins.take(i as int)),
        decreases allowed_origins.len() - i,
    {
        let ghost before = admitted.deep_view();
        proof {
            assert(origins.take(i as int + 1) =~= origins.take(i as int).push(origins[i as int]));
            usable_origins_push(origins.take(i as int), origins[i as int]);
        }
        match header_value(allowed_origins[i].as_str()) {
            Ok(bytes) => {
                let ghost value = bytes.deep_view();
                proof {
                    assert(value =~= bytes@);
                }
                admitted.push(bytes);
                proof {
                    assert(admitted.deep_view() =~= before.push(value));
                }
            },
            Err(_) => {},
        }
        i = i + 1;
    }
    proof {
        assert(origins.take(i as int) =~= origins);
    }
    admitted
}

/// The rules for a list of origins. Entries that cannot be the value of a header are left out.
pub fn create_cors_layer(allowed_origins: &Vec<String>) -> (r: CorsPolicy)
    requires
        !has_wildcard(allowed_origins.deep_view()),
    ensures
        r@ == cors_policy(allowed_origins.deep_view()),
        !r.allow_credentials,
        r.max_age_secs == 3600,
        if allowed_origins@.len() == 0 {
            r.origins is Any && r.methods is Any && r.headers is Any && r.exposed_headers is Any
        } else {
            &&& r.origins matches Allowed::Only(list) && list.deep_view() == usable_origins(
                allowed_origins.deep_view(),
            )
            &&& r.methods matches Allowed::Only(list) && list@.len() == 3 && list@[0]@ == "GET"@
                && list@[1]@ == "POST"@ && list@[2]@ == "OPTIONS"@
            &&& r.headers matches Allowed::Only(list) && list@.len() == 2 && list@[0]@
                == "content-type"@ && list@[1]@ == "authorization"@
            &&& r.exposed_headers matches Allowed::Only(list) && list@.len() == 1 && list@[0]@
                == "x-request-id"@
        },
{
    let policy = if allowed_origins.len() == 0 {
        CorsPolicy {
            origins: Allowed::Any,
            methods: Allowed::Any,
            headers: Allowed::Any,
            exposed_headers: Allowed::Any,
            allow_credentials: false,
            max_age_secs: CORS_MAX_AGE_SECS,
        }
    } else {
        CorsPolicy {
            origins: Allowed::Only(admit_origins(allowed_origins)),
            methods: Allowed::Only(vec!["GET", "POST", "OPTIONS"]),
            headers: Allowed::Only(vec!["content-type", "authorization"]),
            exposed_headers: Allowed::Only(vec!["x-request-id"]),
            allow_credentials: false,
            max_age_secs: CORS_MAX_AGE_SECS,
        }
    };
    proof {
        assert(policy@.methods matches AllowedView::Only(list) ==> list =~= seq![
            "GET"@,
            "POST"@,
            "OPTIONS"@,
        ]);
        assert(policy@.headers matches AllowedView::Only(list) ==> list =~= seq![
            "content-type"@,
            "authorization"@,
        ]);
        assert(policy@.exposed_headers matches AllowedView::Only(list) ==> list =~= seq![
            "x-request-id"@,
        ]);
    }
    policy
}

} // verus!
