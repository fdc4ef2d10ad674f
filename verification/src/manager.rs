//! Decisions that ModemManager operations take around their D-Bus calls:
//! which object paths are modems and in what order, which modem is the
//! primary one or has a given IMEI, how a status is assembled, and how
//! D-Bus failures become [`ModemError`]s.

use vstd::prelude::*;
use crate::modem::{AccessTechnology, ConnectionStatus, Modem, ModemState};
use crate::modem_error::ModemError;
use crate::text::{contains_ignoring_ascii_case, contains_text, ascii_lowercase, is_blank, str_is_blank, lemma_lex_transitive, lemma_lex_trichotomy, lex_le, lex_lt, str_equals, str_lt};

verus! {

/// `zvariant::OwnedObjectPath`, handed to the D-Bus proxies.
#[verifier::external_type_specification]
#[verifier::external_body]
pub struct ExOwnedObjectPath(zvariant::OwnedObjectPath);

/// `Clone` of `zvariant::OwnedObjectPath` (derived there), for the types
/// that hold object paths and derive `Clone`; nothing is claimed of the copy.
pub assume_specification[ <zvariant::OwnedObjectPath as Clone>::clone ](
    p: &zvariant::OwnedObjectPath,
) -> zvariant::OwnedObjectPath;

/// `zvariant::Error`, the failure of a D-Bus value conversion.
#[verifier::external_type_specification]
#[verifier::external_body]
pub struct ExZvariantError(zvariant::Error);

/// `zvariant::OwnedValue`, a D-Bus value read from a property dictionary.
#[verifier::external_type_specification]
#[verifier::external_body]
pub struct ExOwnedValue(zvariant::OwnedValue);

broadcast use vstd::seq_lib::group_to_multiset_ensures;

/// The D-Bus interface that marks a managed object as a modem.
pub const MODEM_INTERFACE: &'static str = "org.freedesktop.ModemManager1.Modem";

/// The texts of a sequence of strings.
pub open spec fn texts(v: Seq<String>) -> Seq<Seq<char>> {
    v.map_values(|s: String| s@)
}

/// The texts are in non-decreasing lexicographic order.
pub open spec fn sorted_texts(s: Seq<Seq<char>>) -> bool {
    forall|i: int, j: int| 0 <= i < j < s.len() ==> lex_le(#[trigger] s[i], #[trigger] s[j])
}

/// The interface names hold the modem interface.
pub open spec fn exposes_modem(interfaces: Seq<String>) -> bool {
    exists|k: int| 0 <= k < interfaces.len() && (#[trigger] interfaces[k])@ == MODEM_INTERFACE@
}

/// The paths of the managed objects that expose the modem interface, in
/// the order the objects are given.
pub open spec fn modem_object_paths(objects: Seq<(String, Vec<String>)>) -> Seq<Seq<char>>
    decreases objects.len(),
{
    if objects.len() == 0 {
        Seq::empty()
    } else {
        let prev = modem_object_paths(objects.drop_last());
        if exposes_modem(objects.last().1@) {
            prev.push(objects.last().0@)
        } else {
            prev
        }
    }
}

fn has_modem_interface(interfaces: &Vec<String>) -> (r: bool)
    ensures
        r == exposes_modem(interfaces@),
{
    let mut k: usize = 0;
    while k < interfaces.len()
        invariant
            k <= interfaces@.len(),
            forall|j: int| 0 <= j < k ==> (#[trigger] interfaces@[j])@ != MODEM_INTERFACE@,
        decreases interfaces@.len() - k,
    {
        if str_equals(interfaces[k].as_str(), MODEM_INTERFACE) {
            return true;
        }
        k = k + 1;
    }
    false
}

/// The first position in the sorted `out` whose text sorts after `x`.
fn insertion_point(out: &Vec<String>, x: &str) -> (k: usize)
    ensures
        k <= out@.len(),
        forall|j: int| 0 <= j < k ==> !lex_lt(x@, (#[trigger] out@[j])@),
        k < out@.len() ==> lex_lt(x@, out@[k as int]@),
{
    let mut k: usize = 0;
    while k < out.len()
        invariant
            k <= out@.len(),
            forall|j: int| 0 <= j < k ==> !lex_lt(x@, (#[trigger] out@[j])@),
        decreases out@.len() - k,
    {
        if str_lt(x, out[k].as_str()) {
            return k;
        }
        k = k + 1;
    }
    k
}

proof fn lemma_insert_keeps_sorted(s: Seq<Seq<char>>, k: int, x: Seq<char>)
    requires
        sorted_texts(s),
        0 <= k <= s.len(),
        forall|j: int| 0 <= j < k ==> !lex_lt(x, #[trigger] s[j]),
        k < s.len() ==> lex_lt(x, s[k]),
    ensures
        sorted_texts(s.insert(k, x)),
{
    let t = s.insert(k, x);
    assert forall|i: int, j: int| 0 <= i < j < t.len() implies lex_le(#[trigger] t[i], #[trigger] t[j]) by {
        if j < k {
            assert(t[i] == s[i] && t[j] == s[j]);
        } else if j == k {
            assert(t[i] == s[i]);
            lemma_lex_trichotomy(x, s[i]);
        } else if i == k {
            assert(t[j] == s[j - 1]);
            if k < j - 1 {
                assert(lex_le(s[k], s[j - 1]));
                if lex_lt(s[k], s[j - 1]) {
                    lemma_lex_transitive(x, s[k], s[j - 1]);
                }
            }
        } else if i < k {
            assert(t[i] == s[i] && t[j] == s[j - 1]);
        } else {
            assert(t[i] == s[i - 1] && t[j] == s[j - 1]);
        }
    }
}

/// Sorts strings in lexicographic order of their characters, which is the
/// order of `str`'s comparison.
pub fn sort_texts(v: Vec<String>) -> (r: Vec<String>)
    ensures
        sorted_texts(texts(r@)),
        texts(r@).to_multiset() == texts(v@).to_multiset(),
{
    let mut out: Vec<String> = Vec::new();
    let mut i: usize = 0;
    assert(texts(v@.take(0)) =~= Seq::<Seq<char>>::empty());
    assert(texts(out@) =~= Seq::<Seq<char>>::empty());
    while i < v.len()
        invariant
            i <= v@.len(),
            sorted_texts(texts(out@)),
            texts(out@).to_multiset() == texts(v@.take(i as int)).to_multiset(),
        decreases v@.len() - i,
    {
        let x = v[i].clone();
        let k = insertion_point(&out, x.as_str());
        let ghost before = texts(out@);
        proof {
            assert forall|j: int| 0 <= j < k implies !lex_lt(x@, #[trigger] before[j]) by {
                assert(before[j] == out@[j]@);
            }
            lemma_insert_keeps_sorted(before, k as int, x@);
        }
        out.insert(k, x);
        proof {
            assert(texts(out@) =~= before.insert(k as int, v@[i as int]@));
            assert(texts(v@.take(i + 1)) =~= texts(v@.take(i as int)).push(v@[i as int]@));
        }
        i = i + 1;
    }
    assert(v@.take(v@.len() as int) =~= v@);
    out
}

/// The paths of the managed objects that expose the modem interface, in
/// lexicographic order. Each object is its path and its interface names,
/// as `GetManagedObjects` reports them.
pub fn modem_paths(objects: Vec<(String, Vec<String>)>) -> (r: Vec<String>)
    ensures
        sorted_texts(texts(r@)),
        texts(r@).to_multiset() == modem_object_paths(objects@).to_multiset(),
{
    let mut selected: Vec<String> = Vec::new();
    let mut i: usize = 0;
    assert(objects@.take(0) =~= Seq::<(String, Vec<String>)>::empty());
    assert(texts(selected@) =~= Seq::<Seq<char>>::empty());
    while i < objects.len()
        invariant
            i <= objects@.len(),
            texts(selected@) == modem_object_paths(objects@.take(i as int)),
        decreases objects@.len() - i,
    {
        assert(objects@.take(i + 1).drop_last() =~= objects@.take(i as int));
        if has_modem_interface(&objects[i].1) {
            selected.push(objects[i].0.clone());
            assert(texts(selected@) =~= modem_object_paths(objects@.take(i as int)).push(
                objects@[i as int].0@,
            ));
        }
        i = i + 1;
    }
    assert(objects@.take(objects@.len() as int) =~= objects@);
    sort_texts(selected)
}


/// Law: sorted text sequences holding the same texts are equal. So the modem
/// paths, and with them the primary modem, do not depend on the order in
/// which `GetManagedObjects` hands the objects out.
pub proof fn law_sorted_order_is_unique(a: Seq<Seq<char>>, b: Seq<Seq<char>>)
    requires
        sorted_texts(a),
        sorted_texts(b),
        a.to_multiset() == b.to_multiset(),
    ensures
        a == b,
    decreases a.len(),
{
    broadcast use vstd::multiset::group_multiset_axioms;
    assert(a.len() == a.to_multiset().len());
    assert(b.len() == b.to_multiset().len());
    if a.len() == 0 {
        assert(a =~= b);
    } else {
        let x = a[0];
        let y = b[0];
        assert(a.to_multiset().count(x) > 0) by {
            assert(a.contains(x));
        }
        assert(b.contains(x));
        let j = choose|j: int| 0 <= j < b.len() && b[j] == x;
        assert(lex_le(y, x)) by {
            if j > 0 {
                assert(lex_le(b[0], b[j]));
            }
        }
        assert(b.to_multiset().count(y) > 0) by {
            assert(b.contains(y));
        }
        assert(a.contains(y));
        let k = choose|k: int| 0 <= k < a.len() && a[k] == y;
        assert(lex_le(x, y)) by {
            if k > 0 {
                assert(lex_le(a[0], a[k]));
            }
        }
        lemma_lex_trichotomy(x, y);
        assert(x == y);
        assert(a.remove(0) =~= a.drop_first());
        assert(b.remove(0) =~= b.drop_first());
        assert(a.remove(0).to_multiset() == a.to_multiset().remove(x));
        assert(b.remove(0).to_multiset() == b.to_multiset().remove(y));
        assert forall|i: int, j: int| 0 <= i < j < a.drop_first().len() implies lex_le(
            #[trigger] a.drop_first()[i],
            #[trigger] a.drop_first()[j],
        ) by {
            assert(lex_le(a[i + 1], a[j + 1]));
        }
        assert forall|i: int, j: int| 0 <= i < j < b.drop_first().len() implies lex_le(
            #[trigger] b.drop_first()[i],
            #[trigger] b.drop_first()[j],
        ) by {
            assert(lex_le(b[i + 1], b[j + 1]));
        }
        law_sorted_order_is_unique(a.drop_first(), b.drop_first());
        assert(a =~= b) by {
            assert forall|i: int| 0 <= i < a.len() implies a[i] == b[i] by {
                if i > 0 {
                    assert(a[i] == a.drop_first()[i - 1]);
                    assert(b[i] == b.drop_first()[i - 1]);
                }
            }
        }
    }
}

/// Law: the first of the sorted modem paths, which names the primary modem,
/// sorts before or equal to every modem path that was listed.
pub proof fn law_primary_path_is_least(sorted: Seq<Seq<char>>, listed: Seq<Seq<char>>, p: Seq<char>)
    requires
        sorted_texts(sorted),
        sorted.to_multiset() == listed.to_multiset(),
        listed.contains(p),
    ensures
        sorted.len() > 0,
        lex_le(sorted[0], p),
{
    broadcast use vstd::multiset::group_multiset_axioms;
    assert(listed.to_multiset().count(p) > 0);
    assert(sorted.contains(p));
    let j = choose|j: int| 0 <= j < sorted.len() && sorted[j] == p;
    if j > 0 {
        assert(lex_le(sorted[0], sorted[j]));
    }
}

/// Law: an object that lists the modem interface anywhere among its
/// interface names is kept as a modem, whatever else it lists and in
/// whatever order.
pub proof fn law_modem_interface_anywhere_is_kept(
    objects: Seq<(String, Vec<String>)>,
    i: int,
    k: int,
)
    requires
        0 <= i < objects.len(),
        0 <= k < objects[i].1@.len(),
        objects[i].1@[k]@ == "org.freedesktop.ModemManager1.Modem"@,
    ensures
        modem_object_paths(objects).contains(objects[i].0@),
    decreases objects.len(),
{
    reveal_strlit("org.freedesktop.ModemManager1.Modem");
    let prev = modem_object_paths(objects.drop_last());
    if i == objects.len() - 1 {
        assert(objects.last().1@[k]@ == MODEM_INTERFACE@);
        assert(exposes_modem(objects.last().1@));
        assert(modem_object_paths(objects) == prev.push(objects.last().0@));
        assert(modem_object_paths(objects)[prev.len() as int] == objects[i].0@);
    } else {
        assert(objects.drop_last()[i] == objects[i]);
        law_modem_interface_anywhere_is_kept(objects.drop_last(), i, k);
        let x = choose|x: int| 0 <= x < prev.len() && prev[x] == objects[i].0@;
        if exposes_modem(objects.last().1@) {
            assert(modem_object_paths(objects)[x] == objects[i].0@);
        } else {
            assert(modem_object_paths(objects)[x] == objects[i].0@);
        }
    }
}

/// Law: every path kept as a modem is the path of a listed object that
/// lists the modem interface among its interface names.
pub proof fn law_kept_paths_expose_the_modem_interface(
    objects: Seq<(String, Vec<String>)>,
    p: Seq<char>,
)
    requires
        modem_object_paths(objects).contains(p),
    ensures
        exists|i: int, k: int|
            #![trigger objects[i].1@[k]]
            0 <= i < objects.len() && 0 <= k < objects[i].1@.len() && objects[i].0@ == p
                && objects[i].1@[k]@ == "org.freedesktop.ModemManager1.Modem"@,
    decreases objects.len(),
{
    reveal_strlit("org.freedesktop.ModemManager1.Modem");
    let prev = modem_object_paths(objects.drop_last());
    let last = objects.len() - 1;
    let x = choose|x: int|
        0 <= x < modem_object_paths(objects).len() && modem_object_paths(objects)[x] == p;
    if exposes_modem(objects.last().1@) && x == prev.len() {
        let k = choose|k: int|
            0 <= k < objects.last().1@.len() && (#[trigger] objects.last().1@[k])@
                == MODEM_INTERFACE@;
        assert(objects[last].1@[k]@ == MODEM_INTERFACE@);
    } else {
        assert(prev[x] == p);
        law_kept_paths_expose_the_modem_interface(objects.drop_last(), p);
        let (i, k) = choose|i: int, k: int|
            #![trigger objects.drop_last()[i].1@[k]]
            0 <= i < objects.drop_last().len() && 0 <= k < objects.drop_last()[i].1@.len()
                && objects.drop_last()[i].0@ == p && objects.drop_last()[i].1@[k]@
                == "org.freedesktop.ModemManager1.Modem"@;
        assert(objects[i] == objects.drop_last()[i]);
        assert(objects[i].1@[k]@ == "org.freedesktop.ModemManager1.Modem"@);
    }
}

/// The path of the primary modem: the first of the sorted modem paths, or
/// `NoModems` when there is none.
pub fn first_modem_path(paths: Vec<String>) -> (r: Result<String, ModemError>)
    ensures
        paths@.len() == 0 ==> r matches Err(ModemError::NoModems),
        paths@.len() > 0 ==> r == Ok::<String, ModemError>(paths@[0]),
{
    let mut list = paths;
    if list.len() == 0 {
        return Err(ModemError::NoModems);
    }
    Ok(list.remove(0))
}

/// The primary modem: the first modem listed, or `NoModems` when none is.
pub fn primary_modem(modems: Vec<Modem>) -> (r: Result<Modem, ModemError>)
    ensures
        modems@.len() == 0 ==> r matches Err(ModemError::NoModems),
        modems@.len() > 0 ==> r == Ok::<Modem, ModemError>(modems@[0]),
{
    let mut list = modems;
    if list.len() == 0 {
        return Err(ModemError::NoModems);
    }
    Ok(list.remove(0))
}

/// The position of the first modem whose equipment identifier is `imei`.
pub open spec fn first_with_identifier(modems: Seq<Modem>, imei: Seq<char>) -> Option<int>
    decreases modems.len(),
{
    if modems.len() == 0 {
        None
    } else if modems[0].equipment_identifier@ == imei {
        Some(0)
    } else {
        match first_with_identifier(modems.drop_first(), imei) {
            Some(i) => Some(i + 1),
            None => None,
        }
    }
}

proof fn lemma_first_with_identifier(modems: Seq<Modem>, imei: Seq<char>, i: int)
    requires
        0 <= i <= modems.len(),
        forall|j: int| 0 <= j < i ==> (#[trigger] modems[j]).equipment_identifier@ != imei,
    ensures
        i < modems.len() && modems[i].equipment_identifier@ == imei ==> first_with_identifier(
            modems,
            imei,
        ) == Some(i),
        i == modems.len() ==> first_with_identifier(modems, imei) is None,
    decreases i,
{
    if i > 0 {
        let rest = modems.drop_first();
        assert forall|j: int| 0 <= j < i - 1 implies (#[trigger] rest[j]).equipment_identifier@
            != imei by {
            assert(rest[j] == modems[j + 1]);
        }
        lemma_first_with_identifier(rest, imei, i - 1);
    }
}

/// The modem whose equipment identifier is `imei` (the first such), or
/// `ModemNotFound("IMEI <imei>")` when no modem has it.
pub fn modem_by_imei(modems: Vec<Modem>, imei: &str) -> (r: Result<Modem, ModemError>)
    ensures
        first_with_identifier(modems@, imei@) matches Some(k) ==> r == Ok::<Modem, ModemError>(
            modems@[k],
        ),
        first_with_identifier(modems@, imei@) is None ==> (r matches Err(
            ModemError::ModemNotFound(text),
        ) && text@ == "IMEI "@ + imei@),
{
    let ghost given = modems@;
    let mut list = modems;
    let mut i: usize = 0;
    while i < list.len()
        invariant
            list@ == given,
            modems@ == given,
            i <= list@.len(),
            forall|j: int| 0 <= j < i ==> (#[trigger] list@[j]).equipment_identifier@ != imei@,
        decreases list@.len() - i,
    {
        if str_equals(list[i].equipment_identifier.as_str(), imei) {
            proof {
                lemma_first_with_identifier(list@, imei@, i as int);
            }
            assert(first_with_identifier(list@, imei@) == Some(i as int));
            let ghost before = list@;
            let m = list.remove(i);
            assert(m == before[i as int]);
            return Ok(m);
        }
        i = i + 1;
    }
    proof {
        lemma_first_with_identifier(list@, imei@, i as int);
    }
    assert(first_with_identifier(list@, imei@) is None);
    let msg = String::from_str("IMEI ").concat(imei);
    assert(msg@ == "IMEI "@ + imei@);
    Err(ModemError::ModemNotFound(msg))
}

/// The status of a modem: the state, access technology and signal quality
/// reported by `Simple.GetStatus` where it reports them, else the modem's own
/// properties. The access technology is read from `access-technology`, then
/// from `access-technologies`.
pub open spec fn status_of(
    modem: Modem,
    state: Option<i32>,
    access_technology: Option<u32>,
    access_technologies: Option<u32>,
    signal_quality: Option<u32>,
) -> ConnectionStatus {
    let st = match state {
        Some(v) => ModemState::decoded(v as int),
        None => modem.state,
    };
    let at = match access_technology {
        Some(b) => AccessTechnology(b),
        None => match access_technologies {
            Some(b) => AccessTechnology(b),
            None => modem.access_technologies,
        },
    };
    ConnectionStatus {
        modem_path: modem.path,
        state: st,
        connected: st == ModemState::Connected,
        access_technology: at,
        signal_quality: match signal_quality {
            Some(q) => Some(q),
            None => Some(modem.signal_quality),
        },
        bearer_paths: modem.bearer_paths,
    }
}

/// Law: a status says connected exactly when its state is `Connected`; a
/// modem that is connecting, registered or in any other state is not
/// connected.
pub proof fn law_connected_exactly_when_state_connected(
    modem: Modem,
    state: Option<i32>,
    access_technology: Option<u32>,
    access_technologies: Option<u32>,
    signal_quality: Option<u32>,
)
    ensures
        status_of(modem, state, access_technology, access_technologies, signal_quality).connected
            <==> status_of(
            modem,
            state,
            access_technology,
            access_technologies,
            signal_quality,
        ).state is Connected,
        state matches Some(v) ==> (status_of(
            modem,
            state,
            access_technology,
            access_technologies,
            signal_quality,
        ).connected <==> ModemState::decoded(v as int) is Connected),
        state is None ==> (status_of(
            modem,
            state,
            access_technology,
            access_technologies,
            signal_quality,
        ).connected <==> modem.state is Connected),
{
}

/// Assembles a modem's connection status from the values `Simple.GetStatus`
/// reported (`None` where a key was absent or not a number) and the modem's
/// own snapshot.
pub fn connection_status(
    modem: Modem,
    state: Option<i32>,
    access_technology: Option<u32>,
    access_technologies: Option<u32>,
    signal_quality: Option<u32>,
) -> (s: ConnectionStatus)
    ensures
        s == status_of(modem, state, access_technology, access_technologies, signal_quality),
{
    let st = match state {
        Some(v) => ModemState::from_raw(v),
        None => modem.state,
    };
    let at = match access_technology {
        Some(b) => AccessTechnology::from_bits(b),
        None => match access_technologies {
            Some(b) => AccessTechnology::from_bits(b),
            None => modem.access_technologies,
        },
    };
    let quality = match signal_quality {
        Some(q) => Some(q),
        None => Some(modem.signal_quality),
    };
    ConnectionStatus {
        modem_path: modem.path,
        state: st,
        connected: st.is_connected(),
        access_technology: at,
        signal_quality: quality,
        bearer_paths: modem.bearer_paths,
    }
}

/// An object path that stands for "none" (`/`) becomes `None`; any other
/// path is kept.
pub fn object_path_option(path: &str) -> (r: Option<String>)
    ensures
        (path@ == "/"@) == (r is None),
        r matches Some(s) ==> s@ == path@,
{
    if str_equals(path, "/") {
        None
    } else {
        Some(String::from_str(path))
    }
}

/// Assembles a modem snapshot from the properties read on its
/// `org.freedesktop.ModemManager1.Modem` object: the raw `State` is
/// decoded, the `AccessTechnologies` bits wrapped, and a `Sim` path of `/`
/// stands for no SIM.
pub fn modem_snapshot(
    path: String,
    state: i32,
    manufacturer: String,
    model: String,
    equipment_identifier: String,
    access_technologies: u32,
    signal_quality: u32,
    sim_path: &str,
    bearer_paths: Vec<String>,
) -> (m: Modem)
    ensures
        m.path == path,
        m.state == ModemState::decoded(state as int),
        m.manufacturer == manufacturer,
        m.model == model,
        m.equipment_identifier == equipment_identifier,
        m.access_technologies@ == access_technologies,
        m.signal_quality == signal_quality,
        (sim_path@ == "/"@) == (m.primary_sim_path is None),
        m.primary_sim_path matches Some(p) ==> p@ == sim_path@,
        m.bearer_paths == bearer_paths,
{
    Modem {
        path,
        state: ModemState::from_raw(state),
        manufacturer,
        model,
        equipment_identifier,
        access_technologies: AccessTechnology::from_bits(access_technologies),
        signal_quality,
        primary_sim_path: object_path_option(sim_path),
        bearer_paths,
    }
}

/// Refuses an APN that is empty or white space only with `InvalidApn`,
/// carrying the APN as given.
pub fn validate_apn(apn: &str) -> (r: Result<(), ModemError>)
    ensures
        !is_blank(apn@) ==> r is Ok,
        is_blank(apn@) ==> (r matches Err(ModemError::InvalidApn(a)) && a@ == apn@),
{
    if str_is_blank(apn) {
        Err(ModemError::InvalidApn(String::from_str(apn)))
    } else {
        Ok(())
    }
}

/// The text of a D-Bus failure tells of a wrong `word` (`pin` or `puk`):
/// once ASCII letters are folded to lower case it holds both `wrong` and
/// `word`.
pub open spec fn tells_wrong(text: Seq<char>, word: Seq<char>) -> bool {
    contains_text(ascii_lowercase(text), "wrong"@) && contains_text(ascii_lowercase(text), word)
}

/// Tests whether a D-Bus failure's text tells of a wrong PIN.
pub fn mentions_wrong_pin(text: &str) -> (r: bool)
    ensures
        r == tells_wrong(text@, "pin"@),
{
    contains_ignoring_ascii_case(text, "wrong") && contains_ignoring_ascii_case(text, "pin")
}

/// Tests whether a D-Bus failure's text tells of a wrong PUK.
pub fn mentions_wrong_puk(text: &str) -> (r: bool)
    ensures
        r == tells_wrong(text@, "puk"@),
{
    contains_ignoring_ascii_case(text, "wrong") && contains_ignoring_ascii_case(text, "puk")
}

/// The error for a failed PIN operation (`SendPin`, `EnablePin`,
/// `ChangePin`): `WrongPin` when the failure's rendering tells of a wrong
/// PIN, else the failure itself as `Dbus`.
pub fn pin_error(e: zbus::Error) -> (r: ModemError)
    ensures
        exists|t: String|
            #[trigger] vstd::string::to_string_from_display_ensures::<zbus::Error>(&e, t) && r == (
            if tells_wrong(t@, "pin"@) {
                ModemError::WrongPin
            } else {
                ModemError::Dbus(e)
            }),
{
    let text = e.to_string();
    if mentions_wrong_pin(text.as_str()) {
        ModemError::WrongPin
    } else {
        ModemError::Dbus(e)
    }
}

/// The error for a failed `SendPuk`: `WrongPuk` when the failure's rendering
/// tells of a wrong PUK, else the failure itself as `Dbus`.
pub fn puk_error(e: zbus::Error) -> (r: ModemError)
    ensures
        exists|t: String|
            #[trigger] vstd::string::to_string_from_display_ensures::<zbus::Error>(&e, t) && r == (
            if tells_wrong(t@, "puk"@) {
                ModemError::WrongPuk
            } else {
                ModemError::Dbus(e)
            }),
{
    let text = e.to_string();
    if mentions_wrong_puk(text.as_str()) {
        ModemError::WrongPuk
    } else {
        ModemError::Dbus(e)
    }
}

/// The error for a failed `Simple.Connect`: `BearerCreationFailed` with
/// `Simple.Connect failed: ` and the failure's rendering.
pub fn bearer_creation_error(e: zbus::Error) -> (r: ModemError)
    ensures
        exists|t: String|
            #[trigger] vstd::string::to_string_from_display_ensures::<zbus::Error>(&e, t) && (
            r matches ModemError::BearerCreationFailed(m) && m@ == "Simple.Connect failed: "@ + t@),
{
    let text = e.to_string();
    let m = String::from_str("Simple.Connect failed: ").concat(text.as_str());
    ModemError::BearerCreationFailed(m)
}

/// The error for a failed `Simple.Disconnect`: `BearerDisconnectFailed` with
/// `Simple.Disconnect failed: ` and the failure's rendering.
pub fn bearer_disconnect_error(e: zbus::Error) -> (r: ModemError)
    ensures
        exists|t: String|
            #[trigger] vstd::string::to_string_from_display_ensures::<zbus::Error>(&e, t) && (
            r matches ModemError::BearerDisconnectFailed(m) && m@ == "Simple.Disconnect failed: "@
                + t@),
{
    let text = e.to_string();
    let m = String::from_str("Simple.Disconnect failed: ").concat(text.as_str());
    ModemError::BearerDisconnectFailed(m)
}


/// A character allowed in a D-Bus object path: ASCII letters and digits,
/// `_` and `/`.
pub open spec fn is_object_path_char(c: char) -> bool {
    ('a' <= c && c <= 'z') || ('A' <= c && c <= 'Z') || ('0' <= c && c <= '9') || c == '_' || c
        == '/'
}

/// A valid D-Bus object path: `/`, or `/` followed by non-empty elements of
/// ASCII letters, digits and `_`, separated by single `/`, with no trailing
/// `/`.
pub open spec fn valid_object_path(s: Seq<char>) -> bool {
    &&& s.len() >= 1
    &&& s[0] == '/'
    &&& forall|i: int| 0 <= i < s.len() ==> is_object_path_char(#[trigger] s[i])
    &&& forall|i: int| 0 <= i < s.len() - 1 ==> !(#[trigger] s[i] == '/' && s[i + 1] == '/')
    &&& (s.len() == 1 || s[s.len() - 1] != '/')
}

/// The object path that `zvariant::OwnedObjectPath::try_from` makes of a
/// valid text; a function of the text alone.
pub uninterp spec fn object_path_of(text: Seq<char>) -> zvariant::OwnedObjectPath;

/// Calls `zvariant::OwnedObjectPath::try_from(&str)`, which accepts the
/// text exactly when it is a valid D-Bus object path (zvariant's `validate`:
/// a leading `/`, elements of ASCII alphanumerics and `_` separated by `/`),
/// and then holds that text; the path made is named by `object_path_of`.
/// A refused text gives `zvariant::Error::InvalidObjectPath`, whose `Display`
/// writes `Invalid object path`.
#[verifier::external_body]
fn parse_object_path(path: &str) -> (r: Result<zvariant::OwnedObjectPath, zvariant::Error>)
    ensures
        r is Ok <==> valid_object_path(path@),
        r matches Ok(p) ==> p == object_path_of(path@),
        r matches Err(e) ==> forall|t: String|
            #[trigger] vstd::string::to_string_from_display_ensures::<zvariant::Error>(&e, t)
                ==> t@ == "Invalid object path"@,
{
    zvariant::OwnedObjectPath::try_from(path)
}

/// The D-Bus object path of a modem. A text that is no valid object path
/// gives `ModemNotFound("<path> (invalid D-Bus object path: <reason>)")`,
/// where the reason is zvariant's rendering of its refusal.
pub fn modem_object_path(path: &str) -> (r: Result<zvariant::OwnedObjectPath, ModemError>)
    ensures
        valid_object_path(path@) ==> r == Ok::<zvariant::OwnedObjectPath, ModemError>(
            object_path_of(path@),
        ),
        !valid_object_path(path@) ==> (r matches Err(ModemError::ModemNotFound(m)) && m@ == path@
            + " (invalid D-Bus object path: Invalid object path)"@),
{
    match parse_object_path(path) {
        Ok(p) => Ok(p),
        Err(e) => {
            let reason = e.to_string();
            let m = String::from_str(path).concat(" (invalid D-Bus object path: ").concat(
                reason.as_str(),
            ).concat(")");
            proof {
                reveal_strlit(")");
                reveal_strlit(" (invalid D-Bus object path: ");
                reveal_strlit("Invalid object path");
                reveal_strlit(" (invalid D-Bus object path: Invalid object path)");
                assert(m@ =~= path@ + " (invalid D-Bus object path: Invalid object path)"@);
            }
            Err(ModemError::ModemNotFound(m))
        },
    }
}

/// The object path `/`, which `Simple.Disconnect` takes for "all bearers".
pub fn all_bearers_path() -> (r: Result<zvariant::OwnedObjectPath, ModemError>)
    ensures
        r == Ok::<zvariant::OwnedObjectPath, ModemError>(object_path_of("/"@)),
{
    proof {
        reveal_strlit("/");
    }
    match parse_object_path("/") {
        Ok(p) => Ok(p),
        Err(e) => {
            let reason = e.to_string();
            Err(ModemError::BearerDisconnectFailed(String::from_str("invalid all-bearers path: ").concat(reason.as_str())))
        },
    }
}

/// What `u32::try_from(&zvariant::OwnedValue)` gives for a value, as an
/// option: a function of the value alone (`Some` when it holds a `u32`).
pub uninterp spec fn u32_in_value(value: zvariant::OwnedValue) -> Option<u32>;

/// Calls `u32::try_from(&zvariant::OwnedValue)`, which succeeds when the
/// value holds a `u32`; the result is named by `u32_in_value`.
#[verifier::external_body]
fn value_as_u32(value: &zvariant::OwnedValue) -> (r: Option<u32>)
    ensures
        r == u32_in_value(*value),
{
    u32::try_from(value).ok()
}

/// What `i32::try_from(&zvariant::OwnedValue)` gives for a value, as an
/// option: a function of the value alone (`Some` when it holds an `i32`).
pub uninterp spec fn i32_in_value(value: zvariant::OwnedValue) -> Option<i32>;

/// Calls `i32::try_from(&zvariant::OwnedValue)`, which succeeds when the
/// value holds an `i32`; the result is named by `i32_in_value`.
#[verifier::external_body]
fn value_as_i32(value: &zvariant::OwnedValue) -> (r: Option<i32>)
    ensures
        r == i32_in_value(*value),
{
    i32::try_from(value).ok()
}

/// What `u64::try_from(&zvariant::OwnedValue)` gives for a value, as an
/// option: a function of the value alone (`Some` when it holds a `u64`).
pub uninterp spec fn u64_in_value(value: zvariant::OwnedValue) -> Option<u64>;

/// Calls `u64::try_from(&zvariant::OwnedValue)`, which succeeds when the
/// value holds a `u64`; the result is named by `u64_in_value`.
#[verifier::external_body]
fn value_as_u64(value: &zvariant::OwnedValue) -> (r: Option<u64>)
    ensures
        r == u64_in_value(*value),
{
    u64::try_from(value).ok()
}

/// A `u32` read as such, else an `i32` read that is not negative.
pub open spec fn u32_reading(as_u32: Option<u32>, as_i32: Option<i32>) -> Option<u32> {
    match as_u32 {
        Some(v) => Some(v),
        None => match as_i32 {
            Some(i) => if i >= 0 {
                Some(i as u32)
            } else {
                None
            },
            None => None,
        },
    }
}

/// An `i32` read as such, else a `u32` read that fits in an `i32`.
pub open spec fn i32_reading(as_i32: Option<i32>, as_u32: Option<u32>) -> Option<i32> {
    match as_i32 {
        Some(v) => Some(v),
        None => match as_u32 {
            Some(u) => if u <= i32::MAX {
                Some(u as i32)
            } else {
                None
            },
            None => None,
        },
    }
}

/// A `u64` read as such, else a `u32` read, widened.
pub open spec fn u64_reading(as_u64: Option<u64>, as_u32: Option<u32>) -> Option<u64> {
    match as_u64 {
        Some(v) => Some(v),
        None => match as_u32 {
            Some(u) => Some(u as u64),
            None => None,
        },
    }
}

/// Combines the two attempts at reading a D-Bus number as a `u32`.
pub fn combine_u32_reading(as_u32: Option<u32>, as_i32: Option<i32>) -> (r: Option<u32>)
    ensures
        r == u32_reading(as_u32, as_i32),
{
    match as_u32 {
        Some(v) => Some(v),
        None => match as_i32 {
            Some(i) => if i >= 0 {
                Some(i as u32)
            } else {
                None
            },
            None => None,
        },
    }
}

/// Combines the two attempts at reading a D-Bus number as an `i32`.
pub fn combine_i32_reading(as_i32: Option<i32>, as_u32: Option<u32>) -> (r: Option<i32>)
    ensures
        r == i32_reading(as_i32, as_u32),
{
    match as_i32 {
        Some(v) => Some(v),
        None => match as_u32 {
            Some(u) => if u <= i32::MAX as u32 {
                Some(u as i32)
            } else {
                None
            },
            None => None,
        },
    }
}

/// Combines the two attempts at reading a D-Bus number as a `u64`.
pub fn combine_u64_reading(as_u64: Option<u64>, as_u32: Option<u32>) -> (r: Option<u64>)
    ensures
        r == u64_reading(as_u64, as_u32),
{
    match as_u64 {
        Some(v) => Some(v),
        None => match as_u32 {
            Some(u) => Some(u as u64),
            None => None,
        },
    }
}

/// Reads a D-Bus number as a `u32`: the value itself when it is a `u32`,
/// else when it is a non-negative `i32`.
pub fn owned_to_u32(value: &zvariant::OwnedValue) -> (r: Option<u32>)
    ensures
        r == u32_reading(u32_in_value(*value), i32_in_value(*value)),
{
    let a = value_as_u32(value);
    if a.is_some() {
        return combine_u32_reading(a, None);
    }
    let b = value_as_i32(value);
    combine_u32_reading(None, b)
}

/// Reads a D-Bus number as an `i32`: the value itself when it is an `i32`,
/// else when it is a `u32` that fits.
pub fn owned_to_i32(value: &zvariant::OwnedValue) -> (r: Option<i32>)
    ensures
        r == i32_reading(i32_in_value(*value), u32_in_value(*value)),
{
    let a = value_as_i32(value);
    if a.is_some() {
        return combine_i32_reading(a, None);
    }
    let b = value_as_u32(value);
    combine_i32_reading(None, b)
}

/// Reads a D-Bus number as a `u64`: the value itself when it is a `u64`,
/// else a `u32` widened.
pub fn owned_to_u64(value: &zvariant::OwnedValue) -> (r: Option<u64>)
    ensures
        r == u64_reading(u64_in_value(*value), u32_in_value(*value)),
{
    let a = value_as_u64(value);
    if a.is_some() {
        return combine_u64_reading(a, None);
    }
    let b = value_as_u32(value);
    combine_u64_reading(None, b)
}

} // verus!
