//! Types shared by many messages: security codes, trade headers, packet ids.
use vstd::prelude::*;

verus! {

/// The quote markets a security code can name.
#[derive(PartialEq, Eq, Structural, Clone, Copy, Debug)]
pub enum QotMarket {
    Unknown,
    HK,
    US,
    CNSH,
    CNSZ,
    SG,
    JP,
}

/// The market prefix of a security code ("HK" in "HK.00700").
pub open spec fn market_name(m: QotMarket) -> Seq<char> {
    match m {
        QotMarket::HK => seq!['H', 'K'],
        QotMarket::US => seq!['U', 'S'],
        QotMarket::CNSH => seq!['C', 'N', 'S', 'H'],
        QotMarket::SG => seq!['S', 'G'],
        QotMarket::JP => seq!['J', 'P'],
        QotMarket::CNSZ => seq!['C', 'N', 'S', 'Z'],
        QotMarket::Unknown => seq!['U', 'n', 'K', 'n', 'o', 'w', 'n'],
    }
}

/// The market a prefix names; `Unknown` for any other prefix.
pub open spec fn market_of(p: Seq<char>) -> QotMarket {
    if p == seq!['H', 'K'] {
        QotMarket::HK
    } else if p == seq!['U', 'S'] {
        QotMarket::US
    } else if p == seq!['C', 'N', 'S', 'H'] {
        QotMarket::CNSH
    } else if p == seq!['S', 'G'] {
        QotMarket::SG
    } else if p == seq!['J', 'P'] {
        QotMarket::JP
    } else if p == seq!['C', 'N', 'S', 'Z'] {
        QotMarket::CNSZ
    } else {
        QotMarket::Unknown
    }
}

/// `i` is the position of the first '.' of `s`.
pub open spec fn is_first_dot(s: Seq<char>, i: int) -> bool {
    0 <= i < s.len() && s[i] == '.' && forall|j: int| 0 <= j < i ==> s[j] != '.'
}

fn same_chars(s: &str, w: &[char]) -> (r: bool)
    ensures
        r == (s@ == w@),
{
    let n = s.unicode_len();
    if n != w.len() {
        return false;
    }
    let mut i: usize = 0;
    while i < n
        invariant
            n == s@.len() == w@.len(),
            0 <= i <= n,
            forall|j: int| 0 <= j < i ==> s@[j] == w@[j],
        decreases n - i,
    {
        if s.get_char(i) != w[i] {
            return false;
        }
        i = i + 1;
    }
    assert(s@ =~= w@);
    true
}

/// The market that a code prefix names; `Unknown` for any other prefix.
pub fn get_qot_market(market: &str) -> (r: QotMarket)
    ensures
        r == market_of(market@),
{
    if same_chars(market, &['H', 'K']) {
        QotMarket::HK
    } else if same_chars(market, &['U', 'S']) {
        QotMarket::US
    } else if same_chars(market, &['C', 'N', 'S', 'H']) {
        QotMarket::CNSH
    } else if same_chars(market, &['S', 'G']) {
        QotMarket::SG
    } else if same_chars(market, &['J', 'P']) {
        QotMarket::JP
    } else if same_chars(market, &['C', 'N', 'S', 'Z']) {
        QotMarket::CNSZ
    } else {
        QotMarket::Unknown
    }
}

/// A security: its market and its code within that market.
#[derive(Debug)]
pub struct Security {
    pub market: QotMarket,
    pub code: String,
}

impl Security {
    /// Reads "MARKET.CODE": the part before the first '.' names the market,
    /// everything after it (further dots included) is the code. A text with
    /// no '.' is refused.
    pub fn try_from(code: &str) -> (r: Result<Security, String>)
        ensures
            r is Err <==> forall|j: int| 0 <= j < code@.len() ==> code@[j] != '.',
            r matches Err(m) ==> m@ == "Invalid code: "@ + code@,
            r matches Ok(s) ==> exists|i: int|
                is_first_dot(code@, i) && s.market == market_of(code@.take(i)) && s.code@
                    == code@.skip(i + 1),
    {
        let n = code.unicode_len();
        let mut i: usize = 0;
        while i < n
            invariant
                n == code@.len(),
                0 <= i <= n,
                forall|j: int| 0 <= j < i ==> code@[j] != '.',
            decreases n - i,
        {
            if code.get_char(i) == '.' {
                let prefix = code.substring_char(0, i);
                let rest = code.substring_char(i + 1, n);
                assert(prefix@ =~= code@.take(i as int));
                assert(rest@ =~= code@.skip(i + 1));
                assert(is_first_dot(code@, i as int));
                return Ok(Security { market: get_qot_market(prefix), code: String::from_str(rest) });
            }
            i = i + 1;
        }
        let mut msg = String::from_str("Invalid code: ");
        msg.append(code);
        Err(msg)
    }

    /// The code text "MARKET.CODE"; an unknown market is written "UnKnown".
    pub fn to_string(&self) -> (r: String)
        ensures
            r@ == market_name(self.market) + seq!['.'] + self.code@,
    {
        let name = match self.market {
            QotMarket::HK => "HK",
            QotMarket::US => "US",
            QotMarket::CNSH => "CNSH",
            QotMarket::SG => "SG",
            QotMarket::JP => "JP",
            QotMarket::CNSZ => "CNSZ",
            QotMarket::Unknown => "UnKnown",
        };
        proof {
            reveal_strlit("HK");
            reveal_strlit("US");
            reveal_strlit("CNSH");
            reveal_strlit("SG");
            reveal_strlit("JP");
            reveal_strlit("CNSZ");
            reveal_strlit("UnKnown");
            reveal_strlit(".");
        }
        assert(name@ =~= market_name(self.market));
        let mut out = String::from_str(name);
        out.append(".");
        out.append(self.code.as_str());
        assert(out@ =~= market_name(self.market) + seq!['.'] + self.code@);
        out
    }
}

/// Writing a security of a known market as text and reading the text back
/// gives the same market and code.
pub proof fn lemma_security_text_round_trip(market: QotMarket, code: Seq<char>)
    requires
        market != QotMarket::Unknown,
    ensures
        ({
            let text = market_name(market) + seq!['.'] + code;
            let i = market_name(market).len() as int;
            is_first_dot(text, i) && market_of(text.take(i)) == market && text.skip(i + 1) == code
        }),
{
    let text = market_name(market) + seq!['.'] + code;
    let i = market_name(market).len() as int;
    assert(text.take(i) =~= market_name(market));
    assert(text.skip(i + 1) =~= code);
    assert(text[i] == '.');
}

/// A list of securities.
#[derive(Debug)]
pub struct SecurityVec(pub Vec<Security>);

/// Identifies a request on a connection: the connection id and a sequence number.
#[derive(Debug)]
pub struct PacketID {
    pub conn_id: u64,
    pub serial_no: u32,
}

/// The account a trade request acts on.
#[derive(Debug)]
pub struct TrdHeader {
    /// Wire code of the trading environment (simulated or real).
    pub trd_env: i32,
    pub acc_id: u64,
    /// Wire code of the trading market.
    pub trd_market: i32,
}

/// A plate (a sector or index grouping) and its name.
#[derive(Debug)]
pub struct PlateInfo {
    pub plate: Security,
    pub name: String,
    /// Wire code of the plate's set type, where given.
    pub plate_type: Option<i32>,
}

/// The gateway program's status.
#[derive(Debug)]
pub struct ProgramStatus {
    /// Wire code of the status.
    pub type_: i32,
    pub str_ext_desc: Option<String>,
}

} // verus!
