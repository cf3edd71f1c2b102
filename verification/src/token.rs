//! The access token that the player passes on.
use vstd::prelude::*;

use crate::json::{
    new_object, object_text, put_list, put_number, put_object, put_text, render, JsonValue,
};

verus! {

/// A token that grants access to the service, for some seconds and within a scope.
pub struct Token {
    pub access_token: String,
    pub expires_in: u32,
    pub token_type: String,
    pub scope: Vec<String>,
}

/// The fields of a token, each under its own name.
pub open spec fn token_entries(token: Token) -> Map<Seq<char>, JsonValue> {
    map![
        "access_token"@ => JsonValue::Text(token.access_token@),
        "expires_in"@ => JsonValue::Number(token.expires_in as int),
        "token_type"@ => JsonValue::Text(token.token_type@),
        "scope"@ => JsonValue::List(token.scope@.map_values(|part: String| part@)),
    ]
}

/// The message that holds a token: an object with the token under `token`.
pub open spec fn token_text(token: Token) -> Seq<char> {
    object_text(map!["token"@ => JsonValue::Object(token_entries(token))])
}

impl Token {
    /// Whether the token is the one that stands in until the service grants another: all blank,
    /// with two blank scopes.
    pub open spec fn is_blank(self) -> bool {
        &&& self.access_token@ == Seq::<char>::empty()
        &&& self.expires_in == 0
        &&& self.token_type@ == Seq::<char>::empty()
        &&& self.scope@.len() == 2
        &&& self.scope@[0]@ == Seq::<char>::empty()
        &&& self.scope@[1]@ == Seq::<char>::empty()
    }

    /// A blank token.
    pub fn blank() -> (token: Token)
        ensures
            token.is_blank(),
    {
        let mut scope: Vec<String> = Vec::new();
        scope.push(String::new());
        scope.push(String::new());
        Token { access_token: String::new(), expires_in: 0, token_type: String::new(), scope }
    }

    /// Writes the message that holds the token.
    pub fn to_json(&self) -> (text: String)
        ensures
            text@ == token_text(*self),
    {
        let mut entries = new_object();
        put_text(&mut entries, "access_token", self.access_token.as_str());
        put_number(&mut entries, "expires_in", self.expires_in as i64);
        put_text(&mut entries, "token_type", self.token_type.as_str());
        put_list(&mut entries, "scope", &self.scope);
        let mut message = new_object();
        put_object(&mut message, "token", entries);
        render(message)
    }
}

} // verus!
