//! The entry kind descriptor: a closed enumeration of the two entry kinds,
//! carrying all kind-specific vocabulary (table name, URL segment, display
//! strings) as total functions of the variant.

use vstd::prelude::*;

verus! {

/// The two entry kinds served by the bulletin board.
#[derive(Clone, Copy, Debug, PartialEq, Eq, Structural)]
pub enum Type {
    Offer,
    Request,
}

/// The SQL table that stores entries of the given kind.
pub open spec fn spec_table(t: Type) -> Seq<char> {
    if t is Offer {
        "offers"@
    } else {
        "requests"@
    }
}

/// The URL path segment under which the given kind is served.
pub open spec fn spec_url_part(t: Type) -> Seq<char> {
    if t is Offer {
        "biete"@
    } else {
        "suche"@
    }
}

/// The German singular noun for the given kind.
pub open spec fn spec_noun(t: Type) -> Seq<char> {
    if t is Offer {
        "Angebot"@
    } else {
        "Anfrage"@
    }
}

/// The German plural noun for the given kind.
pub open spec fn spec_plural(t: Type) -> Seq<char> {
    if t is Offer {
        "Angebote"@
    } else {
        "Anfragen"@
    }
}

/// The German article that goes with the kind's noun.
pub open spec fn spec_article(t: Type) -> Seq<char> {
    if t is Offer {
        "das"@
    } else {
        "die"@
    }
}

/// The capitalized form of the kind's article.
pub open spec fn spec_article_capital(t: Type) -> Seq<char> {
    if t is Offer {
        "Das"@
    } else {
        "Die"@
    }
}

impl Type {
    /// Selects one of two values according to the kind.
    pub fn map<T>(&self, offer: T, request: T) -> (r: T)
        ensures
            r == if *self is Offer {
                offer
            } else {
                request
            },
    {
        match *self {
            Type::Offer => offer,
            Type::Request => request,
        }
    }

    pub fn german_article(&self) -> (r: &'static str)
        ensures
            r@ == spec_article(*self),
    {
        self.map("das", "die")
    }

    pub fn german_article_capital(&self) -> (r: &'static str)
        ensures
            r@ == spec_article_capital(*self),
    {
        self.map("Das", "Die")
    }

    pub fn german_noun(&self) -> (r: &'static str)
        ensures
            r@ == spec_noun(*self),
    {
        self.map("Angebot", "Anfrage")
    }

    pub fn german_plural(&self) -> (r: &'static str)
        ensures
            r@ == spec_plural(*self),
    {
        self.map("Angebote", "Anfragen")
    }

    pub fn table(&self) -> (r: &'static str)
        ensures
            r@ == spec_table(*self),
    {
        self.map("offers", "requests")
    }

    pub fn url_part(&self) -> (r: &'static str)
        ensures
            r@ == spec_url_part(*self),
    {
        self.map("biete", "suche")
    }
}

} // verus!
