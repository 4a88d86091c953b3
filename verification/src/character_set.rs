use vstd::prelude::*;

use crate::transcode::nul_free;

verus! {

/// The character sets a printer can be switched to.  Each one resolves to a
/// codepage name understood by the text transcoder, and to either a code-table
/// or an international-character-set selection command.
#[derive(Clone, Copy, Debug, PartialEq, Eq, Structural)]
pub enum CharacterSet {
    Pc437Usa,
    Pc850Multilingual,
    Pc860Portuguese,
    Pc863CanadianFrench,
    Pc865Nordic,
    Pc851Greek,
    Pc857Turkish,
    Pc737Greek,
    Iso8859_7Greek,
    Wpc1252,
    Pc866Cyrillic2,
    Pc852Latin2,
    Slovenia,
    Pc858Euro,
    Wpc775BalticRim,
    Pc855Cyrillic,
    Pc861Icelandic,
    Pc862Hebrew,
    Pc864Arabic,
    Pc869Greek,
    Iso8859_2Latin2,
    Iso8859_15Latin9,
    Pc1125Ukranian,
    Wpc1250Latin2,
    Wpc1251Cyrillic,
    Wpc1253Greek,
    Wpc1254Turkish,
    Wpc1255Hebrew,
    Wpc1256Arabic,
    Wpc1257BalticRim,
    Wpc1258Vietnamese,
    Kz1048Kazakhstan,
    Japan,
    Korea,
    China,
    HkTw,
}

impl CharacterSet {
    /// The codepage name handed to the text transcoder for this set.
    pub open spec fn codepage_spec(self) -> Seq<char> {
        match self {
            CharacterSet::Pc437Usa => "CP437"@,
            CharacterSet::Pc850Multilingual => "CP850"@,
            CharacterSet::Pc860Portuguese => "CP860"@,
            CharacterSet::Pc863CanadianFrench => "CP863"@,
            CharacterSet::Pc865Nordic => "CP865"@,
            CharacterSet::Pc851Greek => "CP860"@,
            CharacterSet::Pc857Turkish => "CP857"@,
            CharacterSet::Pc737Greek => "CP737"@,
            CharacterSet::Iso8859_7Greek => "ISO-8859-7"@,
            CharacterSet::Wpc1252 => "CP1252"@,
            CharacterSet::Pc866Cyrillic2 => "CP866"@,
            CharacterSet::Pc852Latin2 => "CP852"@,
            CharacterSet::Slovenia => "CP852"@,
            CharacterSet::Pc858Euro => "CP858"@,
            CharacterSet::Wpc775BalticRim => "CP775"@,
            CharacterSet::Pc855Cyrillic => "CP855"@,
            CharacterSet::Pc861Icelandic => "CP861"@,
            CharacterSet::Pc862Hebrew => "CP862"@,
            CharacterSet::Pc864Arabic => "CP864"@,
            CharacterSet::Pc869Greek => "CP869"@,
            CharacterSet::Iso8859_2Latin2 => "ISO-8859-2"@,
            CharacterSet::Iso8859_15Latin9 => "ISO-8859-15"@,
            CharacterSet::Pc1125Ukranian => "CP1125"@,
            CharacterSet::Wpc1250Latin2 => "WIN1250"@,
            CharacterSet::Wpc1251Cyrillic => "WIN1251"@,
            CharacterSet::Wpc1253Greek => "WIN1253"@,
            CharacterSet::Wpc1254Turkish => "WIN1254"@,
            CharacterSet::Wpc1255Hebrew => "WIN1255"@,
            CharacterSet::Wpc1256Arabic => "WIN1256"@,
            CharacterSet::Wpc1257BalticRim => "WIN1257"@,
            CharacterSet::Wpc1258Vietnamese => "WIN1258"@,
            CharacterSet::Kz1048Kazakhstan => "RK1048"@,
            CharacterSet::Japan => "EUC-JP"@,
            CharacterSet::Korea => "EUC-KR"@,
            CharacterSet::China => "GB18030"@,
            CharacterSet::HkTw => "Big5-HKSCS"@,
        }
    }

    /// The codepage name handed to the text transcoder for this set.
    pub fn codepage(&self) -> (name: &'static str)
        ensures
            name@ == self.codepage_spec(),
    {
        match self {
            CharacterSet::Pc437Usa => "CP437",
            CharacterSet::Pc850Multilingual => "CP850",
            CharacterSet::Pc860Portuguese => "CP860",
            CharacterSet::Pc863CanadianFrench => "CP863",
            CharacterSet::Pc865Nordic => "CP865",
            CharacterSet::Pc851Greek => "CP860",
            CharacterSet::Pc857Turkish => "CP857",
            CharacterSet::Pc737Greek => "CP737",
            CharacterSet::Iso8859_7Greek => "ISO-8859-7",
            CharacterSet::Wpc1252 => "CP1252",
            CharacterSet::Pc866Cyrillic2 => "CP866",
            CharacterSet::Pc852Latin2 => "CP852",
            CharacterSet::Slovenia => "CP852",
            CharacterSet::Pc858Euro => "CP858",
            CharacterSet::Wpc775BalticRim => "CP775",
            CharacterSet::Pc855Cyrillic => "CP855",
            CharacterSet::Pc861Icelandic => "CP861",
            CharacterSet::Pc862Hebrew => "CP862",
            CharacterSet::Pc864Arabic => "CP864",
            CharacterSet::Pc869Greek => "CP869",
            CharacterSet::Iso8859_2Latin2 => "ISO-8859-2",
            CharacterSet::Iso8859_15Latin9 => "ISO-8859-15",
            CharacterSet::Pc1125Ukranian => "CP1125",
            CharacterSet::Wpc1250Latin2 => "WIN1250",
            CharacterSet::Wpc1251Cyrillic => "WIN1251",
            CharacterSet::Wpc1253Greek => "WIN1253",
            CharacterSet::Wpc1254Turkish => "WIN1254",
            CharacterSet::Wpc1255Hebrew => "WIN1255",
            CharacterSet::Wpc1256Arabic => "WIN1256",
            CharacterSet::Wpc1257BalticRim => "WIN1257",
            CharacterSet::Wpc1258Vietnamese => "WIN1258",
            CharacterSet::Kz1048Kazakhstan => "RK1048",
            CharacterSet::Japan => "EUC-JP",
            CharacterSet::Korea => "EUC-KR",
            CharacterSet::China => "GB18030",
            CharacterSet::HkTw => "Big5-HKSCS",
        }
    }
}

/// Every codepage name of the table is free of NUL characters, as the
/// transcoder demands of the names it is handed.
pub proof fn lemma_codepage_nul_free(set: CharacterSet)
    ensures
        nul_free(set.codepage_spec()),
{
    reveal_strlit("CP437");
    reveal_strlit("CP850");
    reveal_strlit("CP860");
    reveal_strlit("CP863");
    reveal_strlit("CP865");
    reveal_strlit("CP857");
    reveal_strlit("CP737");
    reveal_strlit("ISO-8859-7");
    reveal_strlit("CP1252");
    reveal_strlit("CP866");
    reveal_strlit("CP852");
    reveal_strlit("CP858");
    reveal_strlit("CP775");
    reveal_strlit("CP855");
    reveal_strlit("CP861");
    reveal_strlit("CP862");
    reveal_strlit("CP864");
    reveal_strlit("CP869");
    reveal_strlit("ISO-8859-2");
    reveal_strlit("ISO-8859-15");
    reveal_strlit("CP1125");
    reveal_strlit("WIN1250");
    reveal_strlit("WIN1251");
    reveal_strlit("WIN1253");
    reveal_strlit("WIN1254");
    reveal_strlit("WIN1255");
    reveal_strlit("WIN1256");
    reveal_strlit("WIN1257");
    reveal_strlit("WIN1258");
    reveal_strlit("RK1048");
    reveal_strlit("EUC-JP");
    reveal_strlit("EUC-KR");
    reveal_strlit("GB18030");
    reveal_strlit("Big5-HKSCS");
}

impl Default for CharacterSet {
    fn default() -> (r: Self)
        ensures
            r == CharacterSet::Pc437Usa,
    {
        CharacterSet::Pc437Usa
    }
}

} // verus!
