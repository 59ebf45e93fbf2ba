use vstd::prelude::*;
use vstd::string::*;
use vstd::utf8::*;

use crate::command::{opt_text_view, owned, Platform};
use crate::registry::{registry_value, DwordWrite, Hive, RegistryValue, RegistryValueView};

verus! {

/// Names the SHA-256 digest of a byte sequence.
pub uninterp spec fn sha256(data: Seq<u8>) -> Seq<u8>;

/// Calls `sha2::Sha256::digest`. Claimed: the result is the named digest of
/// the bytes, 32 bytes long, as the crate's documentation of SHA-256 says.
#[verifier::external_body]
fn sha256_digest(data: &[u8]) -> (d: Vec<u8>)
    ensures
        d@ == sha256(data@),
        d@.len() == 32,
{
    <sha2::Sha256 as sha2::Digest>::digest(data).to_vec()
}

/// The lower-case hexadecimal digit for `d`, which is below sixteen.
pub open spec fn hex_char(d: int) -> char {
    if d == 0 {
        '0'
    } else if d == 1 {
        '1'
    } else if d == 2 {
        '2'
    } else if d == 3 {
        '3'
    } else if d == 4 {
        '4'
    } else if d == 5 {
        '5'
    } else if d == 6 {
        '6'
    } else if d == 7 {
        '7'
    } else if d == 8 {
        '8'
    } else if d == 9 {
        '9'
    } else if d == 10 {
        'a'
    } else if d == 11 {
        'b'
    } else if d == 12 {
        'c'
    } else if d == 13 {
        'd'
    } else if d == 14 {
        'e'
    } else {
        'f'
    }
}

/// Bytes in lower-case hexadecimal, two digits each, in order.
pub open spec fn hex_text(bytes: Seq<u8>) -> Seq<char>
    decreases bytes.len(),
{
    if bytes.len() == 0 {
        Seq::<char>::empty()
    } else {
        hex_text(bytes.drop_last()).push(hex_char((bytes.last() / 16) as int)).push(
            hex_char((bytes.last() % 16) as int),
        )
    }
}

fn hex_digit(d: u8) -> (s: &'static str)
    requires
        d < 16,
    ensures
        s@ == seq![hex_char(d as int)],
{
    proof {
        reveal_strlit("0");
        reveal_strlit("1");
        reveal_strlit("2");
        reveal_strlit("3");
        reveal_strlit("4");
        reveal_strlit("5");
        reveal_strlit("6");
        reveal_strlit("7");
        reveal_strlit("8");
        reveal_strlit("9");
        reveal_strlit("a");
        reveal_strlit("b");
        reveal_strlit("c");
        reveal_strlit("d");
        reveal_strlit("e");
        reveal_strlit("f");
    }
    if d == 0 {
        "0"
    } else if d == 1 {
        "1"
    } else if d == 2 {
        "2"
    } else if d == 3 {
        "3"
    } else if d == 4 {
        "4"
    } else if d == 5 {
        "5"
    } else if d == 6 {
        "6"
    } else if d == 7 {
        "7"
    } else if d == 8 {
        "8"
    } else if d == 9 {
        "9"
    } else if d == 10 {
        "a"
    } else if d == 11 {
        "b"
    } else if d == 12 {
        "c"
    } else if d == 13 {
        "d"
    } else if d == 14 {
        "e"
    } else {
        "f"
    }
}

/// The bytes in lower-case hexadecimal.
pub fn to_hex(bytes: &Vec<u8>) -> (s: String)
    ensures
        s@ == hex_text(bytes@),
{
    let mut s = String::new();
    let n = bytes.len();
    let mut i: usize = 0;
    while i < n
        invariant
            n == bytes@.len(),
            i <= n,
            s@ == hex_text(bytes@.subrange(0, i as int)),
        decreases n - i,
    {
        let b = bytes[i];
        let ghost prefix = bytes@.subrange(0, i + 1);
        assert(prefix.drop_last() =~= bytes@.subrange(0, i as int));
        assert(prefix.last() == b);
        s.append(hex_digit(b / 16));
        s.append(hex_digit(b % 16));
        i = i + 1;
    }
    assert(bytes@.subrange(0, n as int) =~= bytes@);
    s
}

/// A kiosk PIN: four to eight decimal digits.
pub open spec fn valid_pin(pin: Seq<char>) -> bool {
    &&& 4 <= pin.len() <= 8
    &&& forall|i: int| 0 <= i < pin.len() ==> '0' <= #[trigger] pin[i] <= '9'
}

/// What is kept of a PIN: its SHA-256 digest, in hexadecimal, of its UTF-8
/// text.
pub open spec fn pin_hash(pin: Seq<char>) -> Seq<char> {
    hex_text(sha256(encode_utf8(pin)))
}

/// Whether a PIN unlocks kiosk mode, given what was kept of the chosen one.
pub open spec fn pin_unlocks(pin: Seq<char>, kept: Option<Seq<char>>) -> bool {
    kept == Some(pin_hash(pin))
}

/// The reply where a PIN is not four to eight digits.
pub open spec fn pin_format_reply() -> Seq<char> {
    "PIN must be 4 to 8 digits"@
}

/// The reply where the PIN does not unlock kiosk mode.
pub open spec fn invalid_pin_reply() -> Seq<char> {
    "Invalid PIN"@
}

/// The reply where kiosk mode is asked for off Windows.
pub open spec fn kiosk_unsupported_reply() -> Seq<char> {
    "Kiosk mode is only available on Windows"@
}

/// The policy values that kiosk mode sets to 1: no Task Manager, no
/// registry editor, no command prompt.
pub open spec fn kiosk_policy_views() -> Seq<RegistryValueView> {
    seq![
        RegistryValueView {
            hive: Hive::CurrentUser,
            key: "SOFTWARE\\Microsoft\\Windows\\CurrentVersion\\Policies\\System"@,
            name: "DisableTaskMgr"@,
        },
        RegistryValueView {
            hive: Hive::CurrentUser,
            key: "SOFTWARE\\Microsoft\\Windows\\CurrentVersion\\Policies\\System"@,
            name: "DisableRegistryTools"@,
        },
        RegistryValueView {
            hive: Hive::CurrentUser,
            key: "SOFTWARE\\Policies\\Microsoft\\Windows\\System"@,
            name: "DisableCMD"@,
        },
    ]
}

/// Exactly the writes that set each kiosk policy value to 1, in order.
pub open spec fn sets_kiosk_policies(ws: Seq<DwordWrite>) -> bool {
    &&& ws.len() == 3
    &&& forall|i: int|
        0 <= i < 3 ==> (#[trigger] ws[i]).target@ == kiosk_policy_views()[i] && ws[i].data == 1
}

fn kiosk_policies() -> (v: Vec<RegistryValue>)
    ensures
        v@.map_values(|r: RegistryValue| r@) == kiosk_policy_views(),
{
    let mut v: Vec<RegistryValue> = Vec::new();
    v.push(
        registry_value(
            Hive::CurrentUser,
            "SOFTWARE\\Microsoft\\Windows\\CurrentVersion\\Policies\\System",
            "DisableTaskMgr",
        ),
    );
    v.push(
        registry_value(
            Hive::CurrentUser,
            "SOFTWARE\\Microsoft\\Windows\\CurrentVersion\\Policies\\System",
            "DisableRegistryTools",
        ),
    );
    v.push(
        registry_value(Hive::CurrentUser, "SOFTWARE\\Policies\\Microsoft\\Windows\\System", "DisableCMD"),
    );
    assert(v@.map_values(|r: RegistryValue| r@) =~= kiosk_policy_views());
    v
}

/// Choosing a kiosk PIN: the text to keep for it, or the refusal of a PIN
/// that is not four to eight digits.
pub fn set_kiosk_pin(pin: &String) -> (r: Result<String, String>)
    ensures
        valid_pin(pin@) ==> (r matches Ok(h) && h@ == pin_hash(pin@)),
        !valid_pin(pin@) ==> (r matches Err(e) && e@ == pin_format_reply()),
{
    let n = pin.as_str().unicode_len();
    if n < 4 || n > 8 {
        return Err(owned("PIN must be 4 to 8 digits"));
    }
    let mut i: usize = 0;
    while i < n
        invariant
            n == pin@.len(),
            i <= n,
            forall|k: int| 0 <= k < i ==> '0' <= #[trigger] pin@[k] <= '9',
        decreases n - i,
    {
        let c = pin.as_str().get_char(i);
        if c < '0' || c > '9' {
            return Err(owned("PIN must be 4 to 8 digits"));
        }
        i = i + 1;
    }
    let digest = sha256_digest(pin.as_str().as_bytes());
    Ok(to_hex(&digest))
}

/// Kiosk lockdown: on Windows, the policy values to set to 1; elsewhere the
/// refusal.
pub fn enable_kiosk(platform: Platform) -> (r: Result<Vec<DwordWrite>, String>)
    ensures
        platform == Platform::Windows ==> (r matches Ok(ws) && sets_kiosk_policies(ws@)),
        platform != Platform::Windows ==> (r matches Err(e) && e@ == kiosk_unsupported_reply()),
{
    match platform {
        Platform::Windows => {
            let values = kiosk_policies();
            let ghost views = values@.map_values(|r: RegistryValue| r@);
            assert(views.len() == values@.len());
            assert(kiosk_policy_views().len() == 3);
            let mut writes: Vec<DwordWrite> = Vec::new();
            let mut i: usize = 0;
            while i < 3
                invariant
                    values@.len() == 3,
                    views == values@.map_values(|r: RegistryValue| r@),
                    views == kiosk_policy_views(),
                    i <= 3,
                    writes@.len() == i,
                    forall|k: int| 0 <= k < i ==> (#[trigger] writes@[k]).target@ == views[k]
                        && writes@[k].data == 1,
                decreases 3 - i,
            {
                assert(views[i as int] == values@[i as int]@);
                let v = &values[i];
                let t = registry_value(v.hive, v.key.as_str(), v.name.as_str());
                writes.push(DwordWrite { target: t, data: 1 });
                i = i + 1;
            }
            Ok(writes)
        },
        _ => Err(owned("Kiosk mode is only available on Windows")),
    }
}

/// Leaving kiosk lockdown with the PIN: where the PIN's digest is the one
/// kept, the policy values to delete (on Windows; elsewhere the refusal);
/// otherwise the PIN is refused.
pub fn disable_kiosk(pin: &String, kept: &Option<String>, platform: Platform) -> (r: Result<
    Vec<RegistryValue>,
    String,
>)
    ensures
        !pin_unlocks(pin@, opt_text_view(*kept)) ==> (r matches Err(e) && e@ == invalid_pin_reply()),
        pin_unlocks(pin@, opt_text_view(*kept)) && platform == Platform::Windows ==> (r matches Ok(
            vs,
        ) && vs@.map_values(|v: RegistryValue| v@) == kiosk_policy_views()),
        pin_unlocks(pin@, opt_text_view(*kept)) && platform != Platform::Windows ==> (r matches Err(
            e,
        ) && e@ == kiosk_unsupported_reply()),
{
    let digest = sha256_digest(pin.as_str().as_bytes());
    let hash = to_hex(&digest);
    let unlocked = match kept {
        Some(h) => *h == hash,
        None => false,
    };
    if !unlocked {
        return Err(owned("Invalid PIN"));
    }
    match platform {
        Platform::Windows => Ok(kiosk_policies()),
        _ => Err(owned("Kiosk mode is only available on Windows")),
    }
}

/// Law: what is kept of a chosen PIN lets that PIN unlock kiosk mode
/// again.
pub proof fn law_chosen_pin_unlocks(pin: Seq<char>)
    requires
        valid_pin(pin),
    ensures
        pin_unlocks(pin, Some(pin_hash(pin))),
{
}

/// Law: every text of four to eight ASCII digits, whatever the digits
/// (leading zeros included), is accepted as a PIN, and what is kept of it
/// unlocks kiosk mode with that PIN.
pub proof fn law_every_digit_pin_accepted(pin: Seq<char>)
    requires
        4 <= pin.len() <= 8,
        forall|i: int| 0 <= i < pin.len() ==> '0' <= #[trigger] pin[i] <= '9',
    ensures
        valid_pin(pin),
        pin_unlocks(pin, Some(pin_hash(pin))),
{
}

/// Law: a PIN shorter than four or longer than eight characters, or holding
/// anything but an ASCII digit, is refused.
pub proof fn law_malformed_pin_refused(pin: Seq<char>)
    requires
        pin.len() < 4 || pin.len() > 8 || exists|i: int|
            0 <= i < pin.len() && !('0' <= #[trigger] pin[i] <= '9'),
    ensures
        !valid_pin(pin),
{
}

} // verus!
