//! The metadata of the pool's fungible token.
use vstd::prelude::*;
use crate::proposals::clone_opt_string;
use crate::stake::opt_str_view;

verus! {

/// The metadata of a fungible token (NEP-148).
#[derive(Debug, PartialEq, Eq)]
pub struct TokenMetadata {
    pub spec: String,
    pub name: String,
    pub symbol: String,
    pub icon: Option<String>,
    pub reference: Option<String>,
    pub reference_hash: Option<Vec<u8>>,
    pub decimals: u8,
}

/// A `TokenMetadata` with its strings and bytes by their views.
pub struct TokenMetadataView {
    pub spec: Seq<char>,
    pub name: Seq<char>,
    pub symbol: Seq<char>,
    pub icon: Option<Seq<char>>,
    pub reference: Option<Seq<char>>,
    pub reference_hash: Option<Seq<u8>>,
    pub decimals: u8,
}

impl View for TokenMetadata {
    type V = TokenMetadataView;

    open spec fn view(&self) -> TokenMetadataView {
        TokenMetadataView {
            spec: self.spec@,
            name: self.name@,
            symbol: self.symbol@,
            icon: opt_str_view(self.icon),
            reference: opt_str_view(self.reference),
            reference_hash: match self.reference_hash {
                Some(h) => Some(h@),
                None => None,
            },
            decimals: self.decimals,
        }
    }
}

/// A copy of a byte vector.
fn copy_bytes(v: &Vec<u8>) -> (r: Vec<u8>)
    ensures
        r@ == v@,
{
    let mut r: Vec<u8> = Vec::new();
    let mut i: usize = 0;
    while i < v.len()
        invariant
            i <= v@.len(),
            r@ == v@.take(i as int),
        decreases v@.len() - i,
    {
        r.push(v[i]);
        assert(r@ =~= v@.take(i + 1));
        i = i + 1;
    }
    assert(v@.take(i as int) =~= v@);
    r
}

impl Clone for TokenMetadata {
    fn clone(&self) -> (r: Self)
        ensures
            r@ == self@,
    {
        TokenMetadata {
            spec: self.spec.clone(),
            name: self.name.clone(),
            symbol: self.symbol.clone(),
            icon: clone_opt_string(&self.icon),
            reference: clone_opt_string(&self.reference),
            reference_hash: match &self.reference_hash {
                Some(h) => Some(copy_bytes(h)),
                None => None,
            },
            decimals: self.decimals,
        }
    }
}

/// The version of the metadata standard.
pub open spec fn ft_metadata_spec() -> Seq<char> {
    seq!['f', 't', '-', '1', '.', '0', '.', '0']
}

/// The string `ft-1.0.0`.
pub fn ft_metadata_spec_string() -> (r: String)
    ensures
        r@ == ft_metadata_spec(),
{
    proof {
        reveal_strlit("ft-1.0.0");
    }
    "ft-1.0.0".to_owned()
}

/// Valid metadata follows this version of the standard, has a reference
/// exactly when it has a reference hash, and a reference hash of 32 bytes.
pub open spec fn metadata_valid(m: TokenMetadataView) -> bool {
    &&& m.spec == ft_metadata_spec()
    &&& m.reference is Some == m.reference_hash is Some
    &&& m.reference_hash matches Some(h) ==> h.len() == 32
}

impl TokenMetadata {
    /// Whether the metadata is valid.
    pub fn is_valid(&self) -> (r: bool)
        ensures
            r == metadata_valid(self@),
    {
        self.spec == ft_metadata_spec_string() && self.reference.is_some() == self.reference_hash.is_some() && match &self.reference_hash {
            Some(h) => h.len() == 32,
            None => true,
        }
    }

    /// The pool token's default metadata: "Park Token" (PARK), 24 decimals,
    /// with the park logo as its icon.
    pub fn park_default() -> (r: TokenMetadata)
        ensures
            r@ == park_default_metadata(),
            metadata_valid(r@),
    {
        TokenMetadata {
            spec: ft_metadata_spec_string(),
            name: "Park Token".to_owned(),
            symbol: "PARK".to_owned(),
            icon: Some(default_icon().to_owned()),
            reference: None,
            reference_hash: None,
            decimals: 24,
        }
    }
}

/// The pool token's default metadata, by its view.
pub open spec fn park_default_metadata() -> TokenMetadataView {
    TokenMetadataView {
        spec: ft_metadata_spec(),
        name: "Park Token"@,
        symbol: "PARK"@,
        icon: Some(default_icon_spec()),
        reference: None,
        reference_hash: None,
        decimals: 24,
    }
}

/// The park logo, as a data URL.
pub fn default_icon() -> (r: &'static str)
    ensures
        r@ == default_icon_spec(),
{
    "data:image/svg+xml,%3Csvg id='Artwork' xmlns='http://www.w3.org/2000/svg' viewBox='0 0 598.6 369.78'%3E%3Cpath d='M159,209.67c-12.42,0-21.93,9-21.93,21.64v22.44h43.67V231.31C180.75,218.69,171.43,209.67,159,209.67Z'/%3E%3Cpath d='M401.43,228.52c-5.92,0-10.09,2.91-11.45,8.25h22.61C411.33,231.43,407.06,228.52,401.43,228.52Z'/%3E%3Cpath d='M225.86,228.52c-5.92,0-10.09,2.91-11.45,8.25H237C235.76,231.43,231.49,228.52,225.86,228.52Z'/%3E%3Cpath d='M299.3,70.48C172.92,70.48,70.48,172.92,70.48,299.3H528.12C528.12,172.92,425.67,70.48,299.3,70.48Zm-105,195.79H123.49V231.21c0-20.57,15.43-35.42,35.52-35.42s35.32,14.85,35.32,35.42Zm55.4-19.41h-35c1.65,4.85,6.21,8.15,12,8.15a12.44,12.44,0,0,0,9.69-4.43l11.86,4.91c-4.27,7.19-12.13,11.84-21.74,11.84-14.75,0-25.33-11.06-25.33-25.42,0-14.56,10.09-25.62,24.55-25.62s24.46,10.87,24.46,25.42A30,30,0,0,1,249.73,246.86Zm51.09,19.41h-13.2v-28c0-5.05-3.39-9.12-9-9.12a8.82,8.82,0,0,0-9.13,9.12v28H256.28V217.36h13v3.1a19.4,19.4,0,0,1,12.23-4.17c11.16,0,19.31,8.34,19.31,19.41Zm20.44,0h-13.2V217.36h13.2Zm-6.6-56.36a7.06,7.06,0,1,1,7.06-7.06A6.9,6.9,0,0,1,314.66,209.91Zm59.85,19.48-26.3,24.36h26.3v12.52H329.29v-12l26.3-24.35h-26.3V217.36h45.22Zm50.79,17.47h-35c1.65,4.85,6.21,8.15,12,8.15a12.44,12.44,0,0,0,9.69-4.43l11.86,4.91c-4.27,7.19-12.13,11.84-21.74,11.84-14.75,0-25.33-11.06-25.33-25.42,0-14.56,10.09-25.62,24.55-25.62s24.46,10.87,24.46,25.42A30,30,0,0,1,425.3,246.86Zm36.61,19.41v-28c0-5.05-3.4-9.12-9-9.12a8.81,8.81,0,0,0-9.12,9.12v28h-13.2V217.36h13v3.1a19.37,19.37,0,0,1,12.22-4.17c11.16,0,19.31,8.34,19.31,19.41v30.57Z'/%3E%3C/svg%3E"
}

/// The park logo's data URL, by its view.
pub open spec fn default_icon_spec() -> Seq<char> {
    "data:image/svg+xml,%3Csvg id='Artwork' xmlns='http://www.w3.org/2000/svg' viewBox='0 0 598.6 369.78'%3E%3Cpath d='M159,209.67c-12.42,0-21.93,9-21.93,21.64v22.44h43.67V231.31C180.75,218.69,171.43,209.67,159,209.67Z'/%3E%3Cpath d='M401.43,228.52c-5.92,0-10.09,2.91-11.45,8.25h22.61C411.33,231.43,407.06,228.52,401.43,228.52Z'/%3E%3Cpath d='M225.86,228.52c-5.92,0-10.09,2.91-11.45,8.25H237C235.76,231.43,231.49,228.52,225.86,228.52Z'/%3E%3Cpath d='M299.3,70.48C172.92,70.48,70.48,172.92,70.48,299.3H528.12C528.12,172.92,425.67,70.48,299.3,70.48Zm-105,195.79H123.49V231.21c0-20.57,15.43-35.42,35.52-35.42s35.32,14.85,35.32,35.42Zm55.4-19.41h-35c1.65,4.85,6.21,8.15,12,8.15a12.44,12.44,0,0,0,9.69-4.43l11.86,4.91c-4.27,7.19-12.13,11.84-21.74,11.84-14.75,0-25.33-11.06-25.33-25.42,0-14.56,10.09-25.62,24.55-25.62s24.46,10.87,24.46,25.42A30,30,0,0,1,249.73,246.86Zm51.09,19.41h-13.2v-28c0-5.05-3.39-9.12-9-9.12a8.82,8.82,0,0,0-9.13,9.12v28H256.28V217.36h13v3.1a19.4,19.4,0,0,1,12.23-4.17c11.16,0,19.31,8.34,19.31,19.41Zm20.44,0h-13.2V217.36h13.2Zm-6.6-56.36a7.06,7.06,0,1,1,7.06-7.06A6.9,6.9,0,0,1,314.66,209.91Zm59.85,19.48-26.3,24.36h26.3v12.52H329.29v-12l26.3-24.35h-26.3V217.36h45.22Zm50.79,17.47h-35c1.65,4.85,6.21,8.15,12,8.15a12.44,12.44,0,0,0,9.69-4.43l11.86,4.91c-4.27,7.19-12.13,11.84-21.74,11.84-14.75,0-25.33-11.06-25.33-25.42,0-14.56,10.09-25.62,24.55-25.62s24.46,10.87,24.46,25.42A30,30,0,0,1,425.3,246.86Zm36.61,19.41v-28c0-5.05-3.4-9.12-9-9.12a8.81,8.81,0,0,0-9.12,9.12v28h-13.2V217.36h13v3.1a19.37,19.37,0,0,1,12.22-4.17c11.16,0,19.31,8.34,19.31,19.41v30.57Z'/%3E%3C/svg%3E"@
}

} // verus!
