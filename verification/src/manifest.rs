//! The project manifest (`package.json`): a fixed descriptor per variant in
//! which only the name field varies. The name is embedded as a JSON string,
//! quoted and escaped by serde_json.

use vstd::prelude::*;
use crate::Template;

verus! {

/// `package.json`, up to the value of the name field; shared by both
/// variants.
pub const PKG_HEAD: &'static str = "{\n  \"name\": ";

/// `package.json` of the default variant, after the name field.
pub const PKG_DEFAULT_TAIL: &'static str = ",\n  \"private\": true,\n  \"version\": \"0.0.0\",\n  \"type\": \"module\",\n  \"scripts\": {\n    \"dev\": \"vite\",\n    \"build\": \"vite build\",\n    \"lint\": \"eslint . --ext js,jsx --report-unused-disable-directives --max-warnings 0\",\n    \"preview\": \"vite preview\"\n  },\n  \"dependencies\": {\n    \"react\": \"^18.2.0\",\n    \"react-dom\": \"^18.2.0\"\n  },\n  \"devDependencies\": {\n    \"@types/react\": \"^18.2.66\",\n    \"@types/react-dom\": \"^18.2.22\",\n    \"@vitejs/plugin-react\": \"^4.2.1\",\n    \"eslint\": \"^8.57.0\",\n    \"eslint-plugin-react\": \"^7.34.1\",\n    \"eslint-plugin-react-hooks\": \"^4.6.0\",\n    \"eslint-plugin-react-refresh\": \"^0.4.6\",\n    \"vite\": \"^5.2.0\"\n  }\n}\n";

/// `package.json` of the typescript variant, after the name field.
pub const PKG_TS_TAIL: &'static str = ",\n  \"private\": true,\n  \"version\": \"0.0.0\",\n  \"type\": \"module\",\n  \"scripts\": {\n    \"dev\": \"vite\",\n    \"build\": \"tsc && vite build\",\n    \"lint\": \"eslint . --ext ts,tsx --report-unused-disable-directives --max-warnings 0\",\n    \"preview\": \"vite preview\"\n  },\n  \"dependencies\": {\n    \"react\": \"^18.2.0\",\n    \"react-dom\": \"^18.2.0\"\n  },\n  \"devDependencies\": {\n    \"@types/react\": \"^18.2.66\",\n    \"@types/react-dom\": \"^18.2.22\",\n    \"@typescript-eslint/eslint-plugin\": \"^7.2.0\",\n    \"@typescript-eslint/parser\": \"^7.2.0\",\n    \"@vitejs/plugin-react\": \"^4.2.1\",\n    \"eslint\": \"^8.57.0\",\n    \"eslint-plugin-react-hooks\": \"^4.6.0\",\n    \"eslint-plugin-react-refresh\": \"^0.4.6\",\n    \"typescript\": \"^5.2.2\",\n    \"vite\": \"^5.2.0\"\n  }\n}\n";

/// Characters that JSON string quoting copies verbatim: anything but a
/// quote, a backslash, or a control character.
pub open spec fn plain_chars(s: Seq<char>) -> bool {
    forall|i: int| 0 <= i < s.len() ==> s[i] != '"' && s[i] != '\\' && s[i] as u32 >= 0x20
}

/// What JSON string serialization makes of a sequence of characters. It is
/// a function of the characters alone.
pub uninterp spec fn json_quoted(s: Seq<char>) -> Seq<char>;

/// Relies on serde_json::to_string on a string slice: the result is the
/// JSON quoting of the characters alone; characters that need no escaping
/// are copied verbatim between the two added quotes, so a string of such
/// characters is merely surrounded by quotes. Serializing a string slice
/// cannot fail, so the unwrap cannot panic.
#[verifier::external_body]
fn json_quote(s: &str) -> (r: String)
    ensures
        r@ == json_quoted(s@),
        plain_chars(s@) ==> r@ == seq!['"'] + s@ + seq!['"'],
{
    serde_json::to_string(s).unwrap()
}

/// The tail of the manifest for each variant: everything after the name
/// field is a constant of that variant.
pub open spec fn spec_package_tail(t: Template) -> Seq<char> {
    match t {
        Template::Default => PKG_DEFAULT_TAIL@,
        Template::Typescript => PKG_TS_TAIL@,
    }
}

/// The full text of `package.json`: the quoted project name between the
/// constant head and the variant's constant tail.
pub open spec fn spec_package_json(t: Template, name: Seq<char>) -> Seq<char> {
    PKG_HEAD@ + json_quoted(name) + spec_package_tail(t)
}

/// The full text of `package.json` for a name that needs no JSON escaping:
/// the name stands verbatim between two quote characters.
pub open spec fn spec_package_json_plain(t: Template, name: Seq<char>) -> Seq<char> {
    PKG_HEAD@ + seq!['"'] + name + seq!['"'] + spec_package_tail(t)
}

/// Render `package.json` for the given variant and project name.
pub fn package_json_content(t: Template, name: &str) -> (r: String)
    ensures
        r@ == spec_package_json(t, name@),
        plain_chars(name@) ==> r@ == spec_package_json_plain(t, name@),
{
    let q = json_quote(name);
    let mut s = String::from_str(PKG_HEAD);
    s.append(q.as_str());
    match t {
        Template::Default => s.append(PKG_DEFAULT_TAIL),
        Template::Typescript => s.append(PKG_TS_TAIL),
    }
    proof {
        assert(s@ =~= spec_package_json(t, name@));
        if plain_chars(name@) {
            assert(s@ =~= spec_package_json_plain(t, name@));
        }
    }
    s
}

} // verus!
