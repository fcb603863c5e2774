//! The affection system: what the cat has earned from you.
//!
//! Kept apart from the settings because this is earned state, not a
//! setting: restoring default settings must never cost the cat its levels.

use vstd::prelude::*;
use crate::storage::{loaded, save_inv, saved_value_loads_back, FileRead, Files, JobView, SaveStage, ends_with, failure_detail, failure_detail_text, join_path, note3, opt_text, placed_in, verbatim, LoadJson};

verus! {

/// XP for closing a window: the whole point of the app.
pub const XP_CLOSE: u32 = 25;

/// XP for a pat: cheap enough to spam, which is what the pat cooldown is for.
pub const XP_PAT: u32 = 5;

pub open spec fn pow_nat(b: nat, e: nat) -> nat
    decreases e,
{
    if e == 0 {
        1
    } else {
        b * pow_nat(b, (e - 1) as nat)
    }
}

/// Five times `10 × 1.28^k` rounded to the nearest integer: the first
/// level costs 50, each later one 1.28 times the last, rounded to a
/// multiple of 5. With 1.28 = 32/25 the value `10 × 1.28^k` is never
/// exactly halfway between two integers, so rounding is `⌊x + 1/2⌋`.
pub open spec fn exact_cost(k: nat) -> nat {
    5 * ((20 * pow_nat(32, k) + pow_nat(25, k)) / (2 * pow_nat(25, k)))
}

/// Five times `10 × 1.28^-n` rounded to the nearest integer, and never
/// under the minimum of 5: what an exponent wrapped to the negative `-n`
/// costs. `10 × 1.28^-n` is never exactly halfway between two integers
/// either, so rounding is `⌊x + 1/2⌋` again.
pub open spec fn shrunk_cost(n: nat) -> nat {
    let c = 5 * ((20 * pow_nat(25, n) + pow_nat(32, n)) / (2 * pow_nat(32, n)));
    if c < 5 {
        5
    } else {
        c
    }
}

/// What it costs to get from `level` to `level + 1`: `exact_cost(level - 1)`
/// (level 0 costs what level 1 does), saturated at `u32::MAX`. Exponents
/// from 2^31 on do not fit the signed 32-bit exponent and wrap to the
/// negative `k - 2^32`, which costs `shrunk_cost(2^32 - k)`.
pub open spec fn level_cost(level: u32) -> u32 {
    let k: nat = if level == 0 {
        0
    } else {
        (level - 1) as nat
    };
    if k >= 0x8000_0000 {
        shrunk_cost((0x1_0000_0000 - k) as nat) as u32
    } else if exact_cost(k) > u32::MAX {
        u32::MAX
    } else {
        exact_cost(k) as u32
    }
}

proof fn lemma_pow_positive(b: nat, e: nat)
    requires
        b >= 1,
    ensures
        pow_nat(b, e) >= 1,
    decreases e,
{
    if e > 0 {
        lemma_pow_positive(b, (e - 1) as nat);
        assert(b * pow_nat(b, (e - 1) as nat) >= 1) by (nonlinear_arith)
            requires
                b >= 1,
                pow_nat(b, (e - 1) as nat) >= 1,
        ;
    }
}

proof fn lemma_pow_dominates(k: nat)
    ensures
        pow_nat(32, k) >= pow_nat(25, k),
    decreases k,
{
    if k > 0 {
        lemma_pow_dominates((k - 1) as nat);
        let a = pow_nat(32, (k - 1) as nat);
        let b = pow_nat(25, (k - 1) as nat);
        assert(32 * a >= 25 * b) by (nonlinear_arith)
            requires
                a >= b,
                b >= 0,
        ;
    }
}

proof fn lemma_floor_step(n0: int, d0: int, n1: int)
    requires
        d0 >= 1,
        n0 >= 0,
        n1 >= 25 * n0 + 25 * d0,
    ensures
        n1 / (25 * d0) >= n0 / d0 + 1,
{
    assert((25 * n0 + 25 * d0) / (25 * d0) == n0 / d0 + 1) by (nonlinear_arith)
        requires
            d0 >= 1,
            n0 >= 0,
    ;
    assert(n1 / (25 * d0) >= (25 * n0 + 25 * d0) / (25 * d0)) by (nonlinear_arith)
        requires
            d0 >= 1,
            n1 >= 25 * n0 + 25 * d0,
    ;
}

/// Each step of the curve adds at least one multiple of 5.
pub proof fn lemma_exact_cost_step(k: nat)
    ensures
        exact_cost(k + 1) >= exact_cost(k) + 5,
{
    lemma_pow_dominates(k);
    lemma_pow_positive(25, k);
    let a = pow_nat(32, k);
    let b = pow_nat(25, k);
    assert(pow_nat(32, k + 1) == 32 * a);
    assert(pow_nat(25, k + 1) == 25 * b);
    let n0 = 20 * a + b;
    let d0 = 2 * b;
    let n1 = 20 * (32 * a) + 25 * b;
    assert(n1 >= 25 * n0 + 25 * d0) by (nonlinear_arith)
        requires
            a >= b,
            b >= 1,
            n0 == 20 * a + b,
            d0 == 2 * b,
            n1 == 20 * (32 * a) + 25 * b,
    ;
    lemma_floor_step(n0 as int, d0 as int, n1 as int);
    assert(2 * (25 * b) == 25 * d0);
}

/// The curve never falls.
pub proof fn lemma_exact_cost_monotone(j: nat, k: nat)
    requires
        j <= k,
    ensures
        exact_cost(j) <= exact_cost(k),
    decreases k - j,
{
    if j < k {
        lemma_exact_cost_monotone(j, (k - 1) as nat);
        lemma_exact_cost_step((k - 1) as nat);
    }
}

proof fn lemma_pow32_values()
    ensures
        pow_nat(32, 0) == 1,
        pow_nat(32, 1) == 32,
        pow_nat(32, 2) == 1024,
        pow_nat(32, 3) == 32768,
        pow_nat(32, 4) == 1048576,
        pow_nat(32, 5) == 33554432,
        pow_nat(32, 6) == 1073741824,
        pow_nat(32, 7) == 34359738368,
        pow_nat(32, 8) == 1099511627776,
        pow_nat(32, 9) == 35184372088832,
        pow_nat(32, 10) == 1125899906842624,
        pow_nat(32, 11) == 36028797018963968,
        pow_nat(32, 12) == 1152921504606846976,
        pow_nat(32, 13) == 36893488147419103232,
        pow_nat(32, 14) == 1180591620717411303424,
        pow_nat(32, 15) == 37778931862957161709568,
        pow_nat(32, 16) == 1208925819614629174706176,
        pow_nat(32, 17) == 38685626227668133590597632,
        pow_nat(32, 18) == 1237940039285380274899124224,
        pow_nat(32, 19) == 39614081257132168796771975168,
        pow_nat(32, 20) == 1267650600228229401496703205376,
        pow_nat(32, 21) == 40564819207303340847894502572032,
        pow_nat(32, 22) == 1298074214633706907132624082305024,
        pow_nat(32, 23) == 41538374868278621028243970633760768,
        pow_nat(32, 24) == 1329227995784915872903807060280344576,
        pow_nat(32, 25) == 42535295865117307932921825928971026432,
        pow_nat(32, 26) == 1361129467683753853853498429727072845824,
        pow_nat(32, 27) == 43556142965880123323311949751266331066368,
        pow_nat(32, 28) == 1393796574908163946345982392040522594123776,
        pow_nat(32, 29) == 44601490397061246283071436545296723011960832,
        pow_nat(32, 30) == 1427247692705959881058285969449495136382746624,
        pow_nat(32, 31) == 45671926166590716193865151022383844364247891968,
        pow_nat(32, 32) == 1461501637330902918203684832716283019655932542976,
        pow_nat(32, 33) == 46768052394588893382517914646921056628989841375232,
        pow_nat(32, 34) == 1496577676626844588240573268701473812127674924007424,
        pow_nat(32, 35) == 47890485652059026823698344598447161988085597568237568,
        pow_nat(32, 36) == 1532495540865888858358347027150309183618739122183602176,
        pow_nat(32, 37) == 49039857307708443467467104868809893875799651909875269632,
        pow_nat(32, 38) == 1569275433846670190958947355801916604025588861116008628224,
        pow_nat(32, 39) == 50216813883093446110686315385661331328818843555712276103168,
        pow_nat(32, 40) == 1606938044258990275541962092341162602522202993782792835301376,
        pow_nat(32, 41) == 51422017416287688817342786954917203280710495801049370729644032,
        pow_nat(32, 42) == 1645504557321206042154969182557350504982735865633579863348609024,
        pow_nat(32, 43) == 52656145834278593348959013841835216159447547700274555627155488768,
        pow_nat(32, 44) == 1684996666696914987166688442938726917102321526408785780068975640576,
        pow_nat(32, 45) == 53919893334301279589334030174039261347274288845081144962207220498432,
        pow_nat(32, 46) == 1725436586697640946858688965569256363112777243042596638790631055949824,
        pow_nat(32, 47) == 55213970774324510299478046898216203619608871777363092441300193790394368,
        pow_nat(32, 48) == 1766847064778384329583297500742918515827483896875618958121606201292619776,
        pow_nat(32, 49) == 56539106072908298546665520023773392506479484700019806659891398441363832832,
        pow_nat(32, 50) == 1809251394333065553493296640760748560207343510400633813116524750123642650624,
        pow_nat(32, 51) == 57896044618658097711785492504343953926634992332820282019728792003956564819968,
        pow_nat(32, 52) == 1852673427797059126777135760139006525652319754650249024631321344126610074238976,
        pow_nat(32, 53) == 59285549689505892056868344324448208820874232148807968788202283012051522375647232,
        pow_nat(32, 54) == 1897137590064188545819787018382342682267975428761855001222473056385648716020711424,
        pow_nat(32, 55) == 60708402882054033466233184588234965832575213720379360039119137804340758912662765568,
        pow_nat(32, 56) == 1942668892225729070919461906823518906642406839052139521251812409738904285205208498176,
        pow_nat(32, 57) == 62165404551223330269422781018352605012557018849668464680057997111644937126566671941632,
        pow_nat(32, 58) == 1989292945639146568621528992587283360401824603189390869761855907572637988050133502132224,
        pow_nat(32, 59) == 63657374260452690195888927762793067532858387302060507832379389042324415617604272068231168,
        pow_nat(32, 60) == 2037035976334486086268445688409378161051468393665936250636140449354381299763336706183397376,
        pow_nat(32, 61) == 65185151242703554760590262029100101153646988597309960020356494379340201592426774597868716032,
        pow_nat(32, 62) == 2085924839766513752338888384931203236916703635113918720651407820138886450957656787131798913024,
        pow_nat(32, 63) == 66749594872528440074844428317798503581334516323645399060845050244444366430645017188217565216768,
        pow_nat(32, 64) == 2135987035920910082395021706169552114602704522356652769947041607822219725780640550022962086936576,
        pow_nat(32, 65) == 68351585149469122636640694597425667667286544715412888638305331450311031224980497600734786781970432,
        pow_nat(32, 66) == 2187250724783011924372502227117621365353169430893212436425770606409952999199375923223513177023053824,
        pow_nat(32, 67) == 69992023193056381579920071267763883691301421788582797965624659405118495974380029543152421664737722368,
        pow_nat(32, 68) == 2239744742177804210557442280568444278121645497234649534899989100963791871180160945380877493271607115776,
        pow_nat(32, 69) == 71671831749689734737838152978190216899892655911508785116799651230841339877765150252188079784691427704832,
        pow_nat(32, 70) == 2293498615990071511610820895302086940796564989168281123737588839386922876088484808070018553110125686554624,
        pow_nat(32, 71) == 73391955711682288371546268649666782105490079653384995959602842860381532034831513858240593699524021969747968,
        pow_nat(32, 72) == 2348542582773833227889480596789337027375682548908319870707290971532209025114608443463698998384768703031934976,
        pow_nat(32, 73) == 75153362648762663292463379097258784876021841565066235862633311089030688803667470190838367948312598497021919232,
        pow_nat(32, 74) == 2404907604760405225358828131112281116032698930082119547604265954848982041717359046106827774346003151904701415424,
        pow_nat(32, 75) == 76957043352332967211482500195592995713046365762627825523336510555167425334955489475418488779072100860950445293568,
{
    assert(pow_nat(32, 0) == 1);
    assert(pow_nat(32, 1) == 32);
    assert(pow_nat(32, 2) == 1024);
    assert(pow_nat(32, 3) == 32768);
    assert(pow_nat(32, 4) == 1048576);
    assert(pow_nat(32, 5) == 33554432);
    assert(pow_nat(32, 6) == 1073741824);
    assert(pow_nat(32, 7) == 34359738368);
    assert(pow_nat(32, 8) == 1099511627776);
    assert(pow_nat(32, 9) == 35184372088832);
    assert(pow_nat(32, 10) == 1125899906842624);
    assert(pow_nat(32, 11) == 36028797018963968);
    assert(pow_nat(32, 12) == 1152921504606846976);
    assert(pow_nat(32, 13) == 36893488147419103232);
    assert(pow_nat(32, 14) == 1180591620717411303424);
    assert(pow_nat(32, 15) == 37778931862957161709568);
    assert(pow_nat(32, 16) == 1208925819614629174706176);
    assert(pow_nat(32, 17) == 38685626227668133590597632);
    assert(pow_nat(32, 18) == 1237940039285380274899124224);
    assert(pow_nat(32, 19) == 39614081257132168796771975168);
    assert(pow_nat(32, 20) == 1267650600228229401496703205376);
    assert(pow_nat(32, 21) == 40564819207303340847894502572032);
    assert(pow_nat(32, 22) == 1298074214633706907132624082305024);
    assert(pow_nat(32, 23) == 41538374868278621028243970633760768);
    assert(pow_nat(32, 24) == 1329227995784915872903807060280344576);
    assert(pow_nat(32, 25) == 42535295865117307932921825928971026432);
    assert(pow_nat(32, 26) == 1361129467683753853853498429727072845824);
    assert(pow_nat(32, 27) == 43556142965880123323311949751266331066368);
    assert(pow_nat(32, 28) == 1393796574908163946345982392040522594123776);
    assert(pow_nat(32, 29) == 44601490397061246283071436545296723011960832);
    assert(pow_nat(32, 30) == 1427247692705959881058285969449495136382746624);
    assert(pow_nat(32, 31) == 45671926166590716193865151022383844364247891968);
    assert(pow_nat(32, 32) == 1461501637330902918203684832716283019655932542976);
    assert(pow_nat(32, 33) == 46768052394588893382517914646921056628989841375232);
    assert(pow_nat(32, 34) == 1496577676626844588240573268701473812127674924007424);
    assert(pow_nat(32, 35) == 47890485652059026823698344598447161988085597568237568);
    assert(pow_nat(32, 36) == 1532495540865888858358347027150309183618739122183602176);
    assert(pow_nat(32, 37) == 49039857307708443467467104868809893875799651909875269632);
    assert(pow_nat(32, 38) == 1569275433846670190958947355801916604025588861116008628224);
    assert(pow_nat(32, 39) == 50216813883093446110686315385661331328818843555712276103168);
    assert(pow_nat(32, 40) == 1606938044258990275541962092341162602522202993782792835301376);
    assert(pow_nat(32, 41) == 51422017416287688817342786954917203280710495801049370729644032);
    assert(pow_nat(32, 42) == 1645504557321206042154969182557350504982735865633579863348609024);
    assert(pow_nat(32, 43) == 52656145834278593348959013841835216159447547700274555627155488768);
    assert(pow_nat(32, 44) == 1684996666696914987166688442938726917102321526408785780068975640576);
    assert(pow_nat(32, 45) == 53919893334301279589334030174039261347274288845081144962207220498432);
    assert(pow_nat(32, 46) == 1725436586697640946858688965569256363112777243042596638790631055949824);
    assert(pow_nat(32, 47) == 55213970774324510299478046898216203619608871777363092441300193790394368);
    assert(pow_nat(32, 48) == 1766847064778384329583297500742918515827483896875618958121606201292619776);
    assert(pow_nat(32, 49) == 56539106072908298546665520023773392506479484700019806659891398441363832832);
    assert(pow_nat(32, 50) == 1809251394333065553493296640760748560207343510400633813116524750123642650624);
    assert(pow_nat(32, 51) == 57896044618658097711785492504343953926634992332820282019728792003956564819968);
    assert(pow_nat(32, 52) == 1852673427797059126777135760139006525652319754650249024631321344126610074238976);
    assert(pow_nat(32, 53) == 59285549689505892056868344324448208820874232148807968788202283012051522375647232);
    assert(pow_nat(32, 54) == 1897137590064188545819787018382342682267975428761855001222473056385648716020711424);
    assert(pow_nat(32, 55) == 60708402882054033466233184588234965832575213720379360039119137804340758912662765568);
    assert(pow_nat(32, 56) == 1942668892225729070919461906823518906642406839052139521251812409738904285205208498176);
    assert(pow_nat(32, 57) == 62165404551223330269422781018352605012557018849668464680057997111644937126566671941632);
    assert(pow_nat(32, 58) == 1989292945639146568621528992587283360401824603189390869761855907572637988050133502132224);
    assert(pow_nat(32, 59) == 63657374260452690195888927762793067532858387302060507832379389042324415617604272068231168);
    assert(pow_nat(32, 60) == 2037035976334486086268445688409378161051468393665936250636140449354381299763336706183397376);
    assert(pow_nat(32, 61) == 65185151242703554760590262029100101153646988597309960020356494379340201592426774597868716032);
    assert(pow_nat(32, 62) == 2085924839766513752338888384931203236916703635113918720651407820138886450957656787131798913024);
    assert(pow_nat(32, 63) == 66749594872528440074844428317798503581334516323645399060845050244444366430645017188217565216768);
    assert(pow_nat(32, 64) == 2135987035920910082395021706169552114602704522356652769947041607822219725780640550022962086936576);
    assert(pow_nat(32, 65) == 68351585149469122636640694597425667667286544715412888638305331450311031224980497600734786781970432);
    assert(pow_nat(32, 66) == 2187250724783011924372502227117621365353169430893212436425770606409952999199375923223513177023053824);
    assert(pow_nat(32, 67) == 69992023193056381579920071267763883691301421788582797965624659405118495974380029543152421664737722368);
    assert(pow_nat(32, 68) == 2239744742177804210557442280568444278121645497234649534899989100963791871180160945380877493271607115776);
    assert(pow_nat(32, 69) == 71671831749689734737838152978190216899892655911508785116799651230841339877765150252188079784691427704832);
    assert(pow_nat(32, 70) == 2293498615990071511610820895302086940796564989168281123737588839386922876088484808070018553110125686554624);
    assert(pow_nat(32, 71) == 73391955711682288371546268649666782105490079653384995959602842860381532034831513858240593699524021969747968);
    assert(pow_nat(32, 72) == 2348542582773833227889480596789337027375682548908319870707290971532209025114608443463698998384768703031934976);
    assert(pow_nat(32, 73) == 75153362648762663292463379097258784876021841565066235862633311089030688803667470190838367948312598497021919232);
    assert(pow_nat(32, 74) == 2404907604760405225358828131112281116032698930082119547604265954848982041717359046106827774346003151904701415424);
    assert(pow_nat(32, 75) == 76957043352332967211482500195592995713046365762627825523336510555167425334955489475418488779072100860950445293568);
}

proof fn lemma_pow25_values()
    ensures
        pow_nat(25, 0) == 1,
        pow_nat(25, 1) == 25,
        pow_nat(25, 2) == 625,
        pow_nat(25, 3) == 15625,
        pow_nat(25, 4) == 390625,
        pow_nat(25, 5) == 9765625,
        pow_nat(25, 6) == 244140625,
        pow_nat(25, 7) == 6103515625,
        pow_nat(25, 8) == 152587890625,
        pow_nat(25, 9) == 3814697265625,
        pow_nat(25, 10) == 95367431640625,
        pow_nat(25, 11) == 2384185791015625,
        pow_nat(25, 12) == 59604644775390625,
        pow_nat(25, 13) == 1490116119384765625,
        pow_nat(25, 14) == 37252902984619140625,
        pow_nat(25, 15) == 931322574615478515625,
        pow_nat(25, 16) == 23283064365386962890625,
        pow_nat(25, 17) == 582076609134674072265625,
        pow_nat(25, 18) == 14551915228366851806640625,
        pow_nat(25, 19) == 363797880709171295166015625,
        pow_nat(25, 20) == 9094947017729282379150390625,
        pow_nat(25, 21) == 227373675443232059478759765625,
        pow_nat(25, 22) == 5684341886080801486968994140625,
        pow_nat(25, 23) == 142108547152020037174224853515625,
        pow_nat(25, 24) == 3552713678800500929355621337890625,
        pow_nat(25, 25) == 88817841970012523233890533447265625,
        pow_nat(25, 26) == 2220446049250313080847263336181640625,
        pow_nat(25, 27) == 55511151231257827021181583404541015625,
        pow_nat(25, 28) == 1387778780781445675529539585113525390625,
        pow_nat(25, 29) == 34694469519536141888238489627838134765625,
        pow_nat(25, 30) == 867361737988403547205962240695953369140625,
        pow_nat(25, 31) == 21684043449710088680149056017398834228515625,
        pow_nat(25, 32) == 542101086242752217003726400434970855712890625,
        pow_nat(25, 33) == 13552527156068805425093160010874271392822265625,
        pow_nat(25, 34) == 338813178901720135627329000271856784820556640625,
        pow_nat(25, 35) == 8470329472543003390683225006796419620513916015625,
        pow_nat(25, 36) == 211758236813575084767080625169910490512847900390625,
        pow_nat(25, 37) == 5293955920339377119177015629247762262821197509765625,
        pow_nat(25, 38) == 132348898008484427979425390731194056570529937744140625,
        pow_nat(25, 39) == 3308722450212110699485634768279851414263248443603515625,
        pow_nat(25, 40) == 82718061255302767487140869206996285356581211090087890625,
        pow_nat(25, 41) == 2067951531382569187178521730174907133914530277252197265625,
        pow_nat(25, 42) == 51698788284564229679463043254372678347863256931304931640625,
        pow_nat(25, 43) == 1292469707114105741986576081359316958696581423282623291015625,
        pow_nat(25, 44) == 32311742677852643549664402033982923967414535582065582275390625,
        pow_nat(25, 45) == 807793566946316088741610050849573099185363389551639556884765625,
        pow_nat(25, 46) == 20194839173657902218540251271239327479634084738790988922119140625,
        pow_nat(25, 47) == 504870979341447555463506281780983186990852118469774723052978515625,
        pow_nat(25, 48) == 12621774483536188886587657044524579674771302961744368076324462890625,
        pow_nat(25, 49) == 315544362088404722164691426113114491869282574043609201908111572265625,
        pow_nat(25, 50) == 7888609052210118054117285652827862296732064351090230047702789306640625,
        pow_nat(25, 51) == 197215226305252951352932141320696557418301608777255751192569732666015625,
        pow_nat(25, 52) == 4930380657631323783823303533017413935457540219431393779814243316650390625,
        pow_nat(25, 53) == 123259516440783094595582588325435348386438505485784844495356082916259765625,
        pow_nat(25, 54) == 3081487911019577364889564708135883709660962637144621112383902072906494140625,
        pow_nat(25, 55) == 77037197775489434122239117703397092741524065928615527809597551822662353515625,
        pow_nat(25, 56) == 1925929944387235853055977942584927318538101648215388195239938795566558837890625,
        pow_nat(25, 57) == 48148248609680896326399448564623182963452541205384704880998469889163970947265625,
        pow_nat(25, 58) == 1203706215242022408159986214115579574086313530134617622024961747229099273681640625,
        pow_nat(25, 59) == 30092655381050560203999655352889489352157838253365440550624043680727481842041015625,
        pow_nat(25, 60) == 752316384526264005099991383822237233803945956334136013765601092018187046051025390625,
        pow_nat(25, 61) == 18807909613156600127499784595555930845098648908353400344140027300454676151275634765625,
        pow_nat(25, 62) == 470197740328915003187494614888898271127466222708835008603500682511366903781890869140625,
        pow_nat(25, 63) == 11754943508222875079687365372222456778186655567720875215087517062784172594547271728515625,
        pow_nat(25, 64) == 293873587705571876992184134305561419454666389193021880377187926569604314863681793212890625,
        pow_nat(25, 65) == 7346839692639296924804603357639035486366659729825547009429698164240107871592044830322265625,
        pow_nat(25, 66) == 183670992315982423120115083940975887159166493245638675235742454106002696789801120758056640625,
        pow_nat(25, 67) == 4591774807899560578002877098524397178979162331140966880893561352650067419745028018951416015625,
        pow_nat(25, 68) == 114794370197489014450071927463109929474479058278524172022339033816251685493625700473785400390625,
        pow_nat(25, 69) == 2869859254937225361251798186577748236861976456963104300558475845406292137340642511844635009765625,
        pow_nat(25, 70) == 71746481373430634031294954664443705921549411424077607513961896135157303433516062796115875244140625,
        pow_nat(25, 71) == 1793662034335765850782373866611092648038735285601940187849047403378932585837901569902896881103515625,
        pow_nat(25, 72) == 44841550858394146269559346665277316200968382140048504696226185084473314645947539247572422027587890625,
        pow_nat(25, 73) == 1121038771459853656738983666631932905024209553501212617405654627111832866148688481189310550689697265625,
        pow_nat(25, 74) == 28025969286496341418474591665798322625605238837530315435141365677795821653717212029732763767242431640625,
        pow_nat(25, 75) == 700649232162408535461864791644958065640130970938257885878534141944895541342930300743319094181060791015625,
{
    assert(pow_nat(25, 0) == 1);
    assert(pow_nat(25, 1) == 25);
    assert(pow_nat(25, 2) == 625);
    assert(pow_nat(25, 3) == 15625);
    assert(pow_nat(25, 4) == 390625);
    assert(pow_nat(25, 5) == 9765625);
    assert(pow_nat(25, 6) == 244140625);
    assert(pow_nat(25, 7) == 6103515625);
    assert(pow_nat(25, 8) == 152587890625);
    assert(pow_nat(25, 9) == 3814697265625);
    assert(pow_nat(25, 10) == 95367431640625);
    assert(pow_nat(25, 11) == 2384185791015625);
    assert(pow_nat(25, 12) == 59604644775390625);
    assert(pow_nat(25, 13) == 1490116119384765625);
    assert(pow_nat(25, 14) == 37252902984619140625);
    assert(pow_nat(25, 15) == 931322574615478515625);
    assert(pow_nat(25, 16) == 23283064365386962890625);
    assert(pow_nat(25, 17) == 582076609134674072265625);
    assert(pow_nat(25, 18) == 14551915228366851806640625);
    assert(pow_nat(25, 19) == 363797880709171295166015625);
    assert(pow_nat(25, 20) == 9094947017729282379150390625);
    assert(pow_nat(25, 21) == 227373675443232059478759765625);
    assert(pow_nat(25, 22) == 5684341886080801486968994140625);
    assert(pow_nat(25, 23) == 142108547152020037174224853515625);
    assert(pow_nat(25, 24) == 3552713678800500929355621337890625);
    assert(pow_nat(25, 25) == 88817841970012523233890533447265625);
    assert(pow_nat(25, 26) == 2220446049250313080847263336181640625);
    assert(pow_nat(25, 27) == 55511151231257827021181583404541015625);
    assert(pow_nat(25, 28) == 1387778780781445675529539585113525390625);
    assert(pow_nat(25, 29) == 34694469519536141888238489627838134765625);
    assert(pow_nat(25, 30) == 867361737988403547205962240695953369140625);
    assert(pow_nat(25, 31) == 21684043449710088680149056017398834228515625);
    assert(pow_nat(25, 32) == 542101086242752217003726400434970855712890625);
    assert(pow_nat(25, 33) == 13552527156068805425093160010874271392822265625);
    assert(pow_nat(25, 34) == 338813178901720135627329000271856784820556640625);
    assert(pow_nat(25, 35) == 8470329472543003390683225006796419620513916015625);
    assert(pow_nat(25, 36) == 211758236813575084767080625169910490512847900390625);
    assert(pow_nat(25, 37) == 5293955920339377119177015629247762262821197509765625);
    assert(pow_nat(25, 38) == 132348898008484427979425390731194056570529937744140625);
    assert(pow_nat(25, 39) == 3308722450212110699485634768279851414263248443603515625);
    assert(pow_nat(25, 40) == 82718061255302767487140869206996285356581211090087890625);
    assert(pow_nat(25, 41) == 2067951531382569187178521730174907133914530277252197265625);
    assert(pow_nat(25, 42) == 51698788284564229679463043254372678347863256931304931640625);
    assert(pow_nat(25, 43) == 1292469707114105741986576081359316958696581423282623291015625);
    assert(pow_nat(25, 44) == 32311742677852643549664402033982923967414535582065582275390625);
    assert(pow_nat(25, 45) == 807793566946316088741610050849573099185363389551639556884765625);
    assert(pow_nat(25, 46) == 20194839173657902218540251271239327479634084738790988922119140625);
    assert(pow_nat(25, 47) == 504870979341447555463506281780983186990852118469774723052978515625);
    assert(pow_nat(25, 48) == 12621774483536188886587657044524579674771302961744368076324462890625);
    assert(pow_nat(25, 49) == 315544362088404722164691426113114491869282574043609201908111572265625);
    assert(pow_nat(25, 50) == 7888609052210118054117285652827862296732064351090230047702789306640625);
    assert(pow_nat(25, 51) == 197215226305252951352932141320696557418301608777255751192569732666015625);
    assert(pow_nat(25, 52) == 4930380657631323783823303533017413935457540219431393779814243316650390625);
    assert(pow_nat(25, 53) == 123259516440783094595582588325435348386438505485784844495356082916259765625);
    assert(pow_nat(25, 54) == 3081487911019577364889564708135883709660962637144621112383902072906494140625);
    assert(pow_nat(25, 55) == 77037197775489434122239117703397092741524065928615527809597551822662353515625);
    assert(pow_nat(25, 56) == 1925929944387235853055977942584927318538101648215388195239938795566558837890625);
    assert(pow_nat(25, 57) == 48148248609680896326399448564623182963452541205384704880998469889163970947265625);
    assert(pow_nat(25, 58) == 1203706215242022408159986214115579574086313530134617622024961747229099273681640625);
    assert(pow_nat(25, 59) == 30092655381050560203999655352889489352157838253365440550624043680727481842041015625);
    assert(pow_nat(25, 60) == 752316384526264005099991383822237233803945956334136013765601092018187046051025390625);
    assert(pow_nat(25, 61) == 18807909613156600127499784595555930845098648908353400344140027300454676151275634765625);
    assert(pow_nat(25, 62) == 470197740328915003187494614888898271127466222708835008603500682511366903781890869140625);
    assert(pow_nat(25, 63) == 11754943508222875079687365372222456778186655567720875215087517062784172594547271728515625);
    assert(pow_nat(25, 64) == 293873587705571876992184134305561419454666389193021880377187926569604314863681793212890625);
    assert(pow_nat(25, 65) == 7346839692639296924804603357639035486366659729825547009429698164240107871592044830322265625);
    assert(pow_nat(25, 66) == 183670992315982423120115083940975887159166493245638675235742454106002696789801120758056640625);
    assert(pow_nat(25, 67) == 4591774807899560578002877098524397178979162331140966880893561352650067419745028018951416015625);
    assert(pow_nat(25, 68) == 114794370197489014450071927463109929474479058278524172022339033816251685493625700473785400390625);
    assert(pow_nat(25, 69) == 2869859254937225361251798186577748236861976456963104300558475845406292137340642511844635009765625);
    assert(pow_nat(25, 70) == 71746481373430634031294954664443705921549411424077607513961896135157303433516062796115875244140625);
    assert(pow_nat(25, 71) == 1793662034335765850782373866611092648038735285601940187849047403378932585837901569902896881103515625);
    assert(pow_nat(25, 72) == 44841550858394146269559346665277316200968382140048504696226185084473314645947539247572422027587890625);
    assert(pow_nat(25, 73) == 1121038771459853656738983666631932905024209553501212617405654627111832866148688481189310550689697265625);
    assert(pow_nat(25, 74) == 28025969286496341418474591665798322625605238837530315435141365677795821653717212029732763767242431640625);
    assert(pow_nat(25, 75) == 700649232162408535461864791644958065640130970938257885878534141944895541342930300743319094181060791015625);
}

proof fn lemma_cost_values_0_14()
    ensures
        exact_cost(0) == 50,
        exact_cost(1) == 65,
        exact_cost(2) == 80,
        exact_cost(3) == 105,
        exact_cost(4) == 135,
        exact_cost(5) == 170,
        exact_cost(6) == 220,
        exact_cost(7) == 280,
        exact_cost(8) == 360,
        exact_cost(9) == 460,
        exact_cost(10) == 590,
        exact_cost(11) == 755,
        exact_cost(12) == 965,
        exact_cost(13) == 1240,
        exact_cost(14) == 1585,
{
    lemma_pow32_values();
    lemma_pow25_values();
    assert(exact_cost(0) == 50) by (nonlinear_arith)
        requires
            pow_nat(32, 0) == 1,
            pow_nat(25, 0) == 1,
    ;
    assert(exact_cost(1) == 65) by (nonlinear_arith)
        requires
            pow_nat(32, 1) == 32,
            pow_nat(25, 1) == 25,
    ;
    assert(exact_cost(2) == 80) by (nonlinear_arith)
        requires
            pow_nat(32, 2) == 1024,
            pow_nat(25, 2) == 625,
    ;
    assert(exact_cost(3) == 105) by (nonlinear_arith)
        requires
            pow_nat(32, 3) == 32768,
            pow_nat(25, 3) == 15625,
    ;
    assert(exact_cost(4) == 135) by (nonlinear_arith)
        requires
            pow_nat(32, 4) == 1048576,
            pow_nat(25, 4) == 390625,
    ;
    assert(exact_cost(5) == 170) by (nonlinear_arith)
        requires
            pow_nat(32, 5) == 33554432,
            pow_nat(25, 5) == 9765625,
    ;
    assert(exact_cost(6) == 220) by (nonlinear_arith)
        requires
            pow_nat(32, 6) == 1073741824,
            pow_nat(25, 6) == 244140625,
    ;
    assert(exact_cost(7) == 280) by (nonlinear_arith)
        requires
            pow_nat(32, 7) == 34359738368,
            pow_nat(25, 7) == 6103515625,
    ;
    assert(exact_cost(8) == 360) by (nonlinear_arith)
        requires
            pow_nat(32, 8) == 1099511627776,
            pow_nat(25, 8) == 152587890625,
    ;
    assert(exact_cost(9) == 460) by (nonlinear_arith)
        requires
            pow_nat(32, 9) == 35184372088832,
            pow_nat(25, 9) == 3814697265625,
    ;
    assert(exact_cost(10) == 590) by (nonlinear_arith)
        requires
            pow_nat(32, 10) == 1125899906842624,
            pow_nat(25, 10) == 95367431640625,
    ;
    assert(exact_cost(11) == 755) by (nonlinear_arith)
        requires
            pow_nat(32, 11) == 36028797018963968,
            pow_nat(25, 11) == 2384185791015625,
    ;
    assert(exact_cost(12) == 965) by (nonlinear_arith)
        requires
            pow_nat(32, 12) == 1152921504606846976,
            pow_nat(25, 12) == 59604644775390625,
    ;
    assert(exact_cost(13) == 1240) by (nonlinear_arith)
        requires
            pow_nat(32, 13) == 36893488147419103232,
            pow_nat(25, 13) == 1490116119384765625,
    ;
    assert(exact_cost(14) == 1585) by (nonlinear_arith)
        requires
            pow_nat(32, 14) == 1180591620717411303424,
            pow_nat(25, 14) == 37252902984619140625,
    ;
}

proof fn lemma_cost_values_15_29()
    ensures
        exact_cost(15) == 2030,
        exact_cost(16) == 2595,
        exact_cost(17) == 3325,
        exact_cost(18) == 4255,
        exact_cost(19) == 5445,
        exact_cost(20) == 6970,
        exact_cost(21) == 8920,
        exact_cost(22) == 11420,
        exact_cost(23) == 14615,
        exact_cost(24) == 18705,
        exact_cost(25) == 23945,
        exact_cost(26) == 30650,
        exact_cost(27) == 39230,
        exact_cost(28) == 50215,
        exact_cost(29) == 64280,
{
    lemma_pow32_values();
    lemma_pow25_values();
    assert(exact_cost(15) == 2030) by (nonlinear_arith)
        requires
            pow_nat(32, 15) == 37778931862957161709568,
            pow_nat(25, 15) == 931322574615478515625,
    ;
    assert(exact_cost(16) == 2595) by (nonlinear_arith)
        requires
            pow_nat(32, 16) == 1208925819614629174706176,
            pow_nat(25, 16) == 23283064365386962890625,
    ;
    assert(exact_cost(17) == 3325) by (nonlinear_arith)
        requires
            pow_nat(32, 17) == 38685626227668133590597632,
            pow_nat(25, 17) == 582076609134674072265625,
    ;
    assert(exact_cost(18) == 4255) by (nonlinear_arith)
        requires
            pow_nat(32, 18) == 1237940039285380274899124224,
            pow_nat(25, 18) == 14551915228366851806640625,
    ;
    assert(exact_cost(19) == 5445) by (nonlinear_arith)
        requires
            pow_nat(32, 19) == 39614081257132168796771975168,
            pow_nat(25, 19) == 363797880709171295166015625,
    ;
    assert(exact_cost(20) == 6970) by (nonlinear_arith)
        requires
            pow_nat(32, 20) == 1267650600228229401496703205376,
            pow_nat(25, 20) == 9094947017729282379150390625,
    ;
    assert(exact_cost(21) == 8920) by (nonlinear_arith)
        requires
            pow_nat(32, 21) == 40564819207303340847894502572032,
            pow_nat(25, 21) == 227373675443232059478759765625,
    ;
    assert(exact_cost(22) == 11420) by (nonlinear_arith)
        requires
            pow_nat(32, 22) == 1298074214633706907132624082305024,
            pow_nat(25, 22) == 5684341886080801486968994140625,
    ;
    assert(exact_cost(23) == 14615) by (nonlinear_arith)
        requires
            pow_nat(32, 23) == 41538374868278621028243970633760768,
            pow_nat(25, 23) == 142108547152020037174224853515625,
    ;
    assert(exact_cost(24) == 18705) by (nonlinear_arith)
        requires
            pow_nat(32, 24) == 1329227995784915872903807060280344576,
            pow_nat(25, 24) == 3552713678800500929355621337890625,
    ;
    assert(exact_cost(25) == 23945) by (nonlinear_arith)
        requires
            pow_nat(32, 25) == 42535295865117307932921825928971026432,
            pow_nat(25, 25) == 88817841970012523233890533447265625,
    ;
    assert(exact_cost(26) == 30650) by (nonlinear_arith)
        requires
            pow_nat(32, 26) == 1361129467683753853853498429727072845824,
            pow_nat(25, 26) == 2220446049250313080847263336181640625,
    ;
    assert(exact_cost(27) == 39230) by (nonlinear_arith)
        requires
            pow_nat(32, 27) == 43556142965880123323311949751266331066368,
            pow_nat(25, 27) == 55511151231257827021181583404541015625,
    ;
    assert(exact_cost(28) == 50215) by (nonlinear_arith)
        requires
            pow_nat(32, 28) == 1393796574908163946345982392040522594123776,
            pow_nat(25, 28) == 1387778780781445675529539585113525390625,
    ;
    assert(exact_cost(29) == 64280) by (nonlinear_arith)
        requires
            pow_nat(32, 29) == 44601490397061246283071436545296723011960832,
            pow_nat(25, 29) == 34694469519536141888238489627838134765625,
    ;
}

proof fn lemma_cost_values_30_44()
    ensures
        exact_cost(30) == 82275,
        exact_cost(31) == 105310,
        exact_cost(32) == 134800,
        exact_cost(33) == 172545,
        exact_cost(34) == 220855,
        exact_cost(35) == 282695,
        exact_cost(36) == 361850,
        exact_cost(37) == 463170,
        exact_cost(38) == 592855,
        exact_cost(39) == 758855,
        exact_cost(40) == 971335,
        exact_cost(41) == 1243310,
        exact_cost(42) == 1591435,
        exact_cost(43) == 2037035,
        exact_cost(44) == 2607405,
{
    lemma_pow32_values();
    lemma_pow25_values();
    assert(exact_cost(30) == 82275) by (nonlinear_arith)
        requires
            pow_nat(32, 30) == 1427247692705959881058285969449495136382746624,
            pow_nat(25, 30) == 867361737988403547205962240695953369140625,
    ;
    assert(exact_cost(31) == 105310) by (nonlinear_arith)
        requires
            pow_nat(32, 31) == 45671926166590716193865151022383844364247891968,
            pow_nat(25, 31) == 21684043449710088680149056017398834228515625,
    ;
    assert(exact_cost(32) == 134800) by (nonlinear_arith)
        requires
            pow_nat(32, 32) == 1461501637330902918203684832716283019655932542976,
            pow_nat(25, 32) == 542101086242752217003726400434970855712890625,
    ;
    assert(exact_cost(33) == 172545) by (nonlinear_arith)
        requires
            pow_nat(32, 33) == 46768052394588893382517914646921056628989841375232,
            pow_nat(25, 33) == 13552527156068805425093160010874271392822265625,
    ;
    assert(exact_cost(34) == 220855) by (nonlinear_arith)
        requires
            pow_nat(32, 34) == 1496577676626844588240573268701473812127674924007424,
            pow_nat(25, 34) == 338813178901720135627329000271856784820556640625,
    ;
    assert(exact_cost(35) == 282695) by (nonlinear_arith)
        requires
            pow_nat(32, 35) == 47890485652059026823698344598447161988085597568237568,
            pow_nat(25, 35) == 8470329472543003390683225006796419620513916015625,
    ;
    assert(exact_cost(36) == 361850) by (nonlinear_arith)
        requires
            pow_nat(32, 36) == 1532495540865888858358347027150309183618739122183602176,
            pow_nat(25, 36) == 211758236813575084767080625169910490512847900390625,
    ;
    assert(exact_cost(37) == 463170) by (nonlinear_arith)
        requires
            pow_nat(32, 37) == 49039857307708443467467104868809893875799651909875269632,
            pow_nat(25, 37) == 5293955920339377119177015629247762262821197509765625,
    ;
    assert(exact_cost(38) == 592855) by (nonlinear_arith)
        requires
            pow_nat(32, 38) == 1569275433846670190958947355801916604025588861116008628224,
            pow_nat(25, 38) == 132348898008484427979425390731194056570529937744140625,
    ;
    assert(exact_cost(39) == 758855) by (nonlinear_arith)
        requires
            pow_nat(32, 39) == 50216813883093446110686315385661331328818843555712276103168,
            pow_nat(25, 39) == 3308722450212110699485634768279851414263248443603515625,
    ;
    assert(exact_cost(40) == 971335) by (nonlinear_arith)
        requires
            pow_nat(32, 40) == 1606938044258990275541962092341162602522202993782792835301376,
            pow_nat(25, 40) == 82718061255302767487140869206996285356581211090087890625,
    ;
    assert(exact_cost(41) == 1243310) by (nonlinear_arith)
        requires
            pow_nat(32, 41) == 51422017416287688817342786954917203280710495801049370729644032,
            pow_nat(25, 41) == 2067951531382569187178521730174907133914530277252197265625,
    ;
    assert(exact_cost(42) == 1591435) by (nonlinear_arith)
        requires
            pow_nat(32, 42) == 1645504557321206042154969182557350504982735865633579863348609024,
            pow_nat(25, 42) == 51698788284564229679463043254372678347863256931304931640625,
    ;
    assert(exact_cost(43) == 2037035) by (nonlinear_arith)
        requires
            pow_nat(32, 43) == 52656145834278593348959013841835216159447547700274555627155488768,
            pow_nat(25, 43) == 1292469707114105741986576081359316958696581423282623291015625,
    ;
    assert(exact_cost(44) == 2607405) by (nonlinear_arith)
        requires
            pow_nat(32, 44) == 1684996666696914987166688442938726917102321526408785780068975640576,
            pow_nat(25, 44) == 32311742677852643549664402033982923967414535582065582275390625,
    ;
}

proof fn lemma_cost_values_45_59()
    ensures
        exact_cost(45) == 3337480,
        exact_cost(46) == 4271975,
        exact_cost(47) == 5468125,
        exact_cost(48) == 6999200,
        exact_cost(49) == 8958980,
        exact_cost(50) == 11467495,
        exact_cost(51) == 14678390,
        exact_cost(52) == 18788340,
        exact_cost(53) == 24049075,
        exact_cost(54) == 30782815,
        exact_cost(55) == 39402005,
        exact_cost(56) == 50434570,
        exact_cost(57) == 64556245,
        exact_cost(58) == 82631995,
        exact_cost(59) == 105768955,
{
    lemma_pow32_values();
    lemma_pow25_values();
    assert(exact_cost(45) == 3337480) by (nonlinear_arith)
        requires
            pow_nat(32, 45) == 53919893334301279589334030174039261347274288845081144962207220498432,
            pow_nat(25, 45) == 807793566946316088741610050849573099185363389551639556884765625,
    ;
    assert(exact_cost(46) == 4271975) by (nonlinear_arith)
        requires
            pow_nat(32, 46) == 1725436586697640946858688965569256363112777243042596638790631055949824,
            pow_nat(25, 46) == 20194839173657902218540251271239327479634084738790988922119140625,
    ;
    assert(exact_cost(47) == 5468125) by (nonlinear_arith)
        requires
            pow_nat(32, 47) == 55213970774324510299478046898216203619608871777363092441300193790394368,
            pow_nat(25, 47) == 504870979341447555463506281780983186990852118469774723052978515625,
    ;
    assert(exact_cost(48) == 6999200) by (nonlinear_arith)
        requires
            pow_nat(32, 48) == 1766847064778384329583297500742918515827483896875618958121606201292619776,
            pow_nat(25, 48) == 12621774483536188886587657044524579674771302961744368076324462890625,
    ;
    assert(exact_cost(49) == 8958980) by (nonlinear_arith)
        requires
            pow_nat(32, 49) == 56539106072908298546665520023773392506479484700019806659891398441363832832,
            pow_nat(25, 49) == 315544362088404722164691426113114491869282574043609201908111572265625,
    ;
    assert(exact_cost(50) == 11467495) by (nonlinear_arith)
        requires
            pow_nat(32, 50) == 1809251394333065553493296640760748560207343510400633813116524750123642650624,
            pow_nat(25, 50) == 7888609052210118054117285652827862296732064351090230047702789306640625,
    ;
    assert(exact_cost(51) == 14678390) by (nonlinear_arith)
        requires
            pow_nat(32, 51) == 57896044618658097711785492504343953926634992332820282019728792003956564819968,
            pow_nat(25, 51) == 197215226305252951352932141320696557418301608777255751192569732666015625,
    ;
    assert(exact_cost(52) == 18788340) by (nonlinear_arith)
        requires
            pow_nat(32, 52) == 1852673427797059126777135760139006525652319754650249024631321344126610074238976,
            pow_nat(25, 52) == 4930380657631323783823303533017413935457540219431393779814243316650390625,
    ;
    assert(exact_cost(53) == 24049075) by (nonlinear_arith)
        requires
            pow_nat(32, 53) == 59285549689505892056868344324448208820874232148807968788202283012051522375647232,
            pow_nat(25, 53) == 123259516440783094595582588325435348386438505485784844495356082916259765625,
    ;
    assert(exact_cost(54) == 30782815) by (nonlinear_arith)
        requires
            pow_nat(32, 54) == 1897137590064188545819787018382342682267975428761855001222473056385648716020711424,
            pow_nat(25, 54) == 3081487911019577364889564708135883709660962637144621112383902072906494140625,
    ;
    assert(exact_cost(55) == 39402005) by (nonlinear_arith)
        requires
            pow_nat(32, 55) == 60708402882054033466233184588234965832575213720379360039119137804340758912662765568,
            pow_nat(25, 55) == 77037197775489434122239117703397092741524065928615527809597551822662353515625,
    ;
    assert(exact_cost(56) == 50434570) by (nonlinear_arith)
        requires
            pow_nat(32, 56) == 1942668892225729070919461906823518906642406839052139521251812409738904285205208498176,
            pow_nat(25, 56) == 1925929944387235853055977942584927318538101648215388195239938795566558837890625,
    ;
    assert(exact_cost(57) == 64556245) by (nonlinear_arith)
        requires
            pow_nat(32, 57) == 62165404551223330269422781018352605012557018849668464680057997111644937126566671941632,
            pow_nat(25, 57) == 48148248609680896326399448564623182963452541205384704880998469889163970947265625,
    ;
    assert(exact_cost(58) == 82631995) by (nonlinear_arith)
        requires
            pow_nat(32, 58) == 1989292945639146568621528992587283360401824603189390869761855907572637988050133502132224,
            pow_nat(25, 58) == 1203706215242022408159986214115579574086313530134617622024961747229099273681640625,
    ;
    assert(exact_cost(59) == 105768955) by (nonlinear_arith)
        requires
            pow_nat(32, 59) == 63657374260452690195888927762793067532858387302060507832379389042324415617604272068231168,
            pow_nat(25, 59) == 30092655381050560203999655352889489352157838253365440550624043680727481842041015625,
    ;
}

proof fn lemma_cost_values_60_74()
    ensures
        exact_cost(60) == 135384260,
        exact_cost(61) == 173291855,
        exact_cost(62) == 221813575,
        exact_cost(63) == 283921375,
        exact_cost(64) == 363419360,
        exact_cost(65) == 465176785,
        exact_cost(66) == 595426285,
        exact_cost(67) == 762145640,
        exact_cost(68) == 975546420,
        exact_cost(69) == 1248699420,
        exact_cost(70) == 1598335260,
        exact_cost(71) == 2045869130,
        exact_cost(72) == 2618712485,
        exact_cost(73) == 3351951980,
        exact_cost(74) == 4290498540,
{
    lemma_pow32_values();
    lemma_pow25_values();
    assert(exact_cost(60) == 135384260) by (nonlinear_arith)
        requires
            pow_nat(32, 60) == 2037035976334486086268445688409378161051468393665936250636140449354381299763336706183397376,
            pow_nat(25, 60) == 752316384526264005099991383822237233803945956334136013765601092018187046051025390625,
    ;
    assert(exact_cost(61) == 173291855) by (nonlinear_arith)
        requires
            pow_nat(32, 61) == 65185151242703554760590262029100101153646988597309960020356494379340201592426774597868716032,
            pow_nat(25, 61) == 18807909613156600127499784595555930845098648908353400344140027300454676151275634765625,
    ;
    assert(exact_cost(62) == 221813575) by (nonlinear_arith)
        requires
            pow_nat(32, 62) == 2085924839766513752338888384931203236916703635113918720651407820138886450957656787131798913024,
            pow_nat(25, 62) == 470197740328915003187494614888898271127466222708835008603500682511366903781890869140625,
    ;
    assert(exact_cost(63) == 283921375) by (nonlinear_arith)
        requires
            pow_nat(32, 63) == 66749594872528440074844428317798503581334516323645399060845050244444366430645017188217565216768,
            pow_nat(25, 63) == 11754943508222875079687365372222456778186655567720875215087517062784172594547271728515625,
    ;
    assert(exact_cost(64) == 363419360) by (nonlinear_arith)
        requires
            pow_nat(32, 64) == 2135987035920910082395021706169552114602704522356652769947041607822219725780640550022962086936576,
            pow_nat(25, 64) == 293873587705571876992184134305561419454666389193021880377187926569604314863681793212890625,
    ;
    assert(exact_cost(65) == 465176785) by (nonlinear_arith)
        requires
            pow_nat(32, 65) == 68351585149469122636640694597425667667286544715412888638305331450311031224980497600734786781970432,
            pow_nat(25, 65) == 7346839692639296924804603357639035486366659729825547009429698164240107871592044830322265625,
    ;
    assert(exact_cost(66) == 595426285) by (nonlinear_arith)
        requires
            pow_nat(32, 66) == 2187250724783011924372502227117621365353169430893212436425770606409952999199375923223513177023053824,
            pow_nat(25, 66) == 183670992315982423120115083940975887159166493245638675235742454106002696789801120758056640625,
    ;
    assert(exact_cost(67) == 762145640) by (nonlinear_arith)
        requires
            pow_nat(32, 67) == 69992023193056381579920071267763883691301421788582797965624659405118495974380029543152421664737722368,
            pow_nat(25, 67) == 4591774807899560578002877098524397178979162331140966880893561352650067419745028018951416015625,
    ;
    assert(exact_cost(68) == 975546420) by (nonlinear_arith)
        requires
            pow_nat(32, 68) == 2239744742177804210557442280568444278121645497234649534899989100963791871180160945380877493271607115776,
            pow_nat(25, 68) == 114794370197489014450071927463109929474479058278524172022339033816251685493625700473785400390625,
    ;
    assert(exact_cost(69) == 1248699420) by (nonlinear_arith)
        requires
            pow_nat(32, 69) == 71671831749689734737838152978190216899892655911508785116799651230841339877765150252188079784691427704832,
            pow_nat(25, 69) == 2869859254937225361251798186577748236861976456963104300558475845406292137340642511844635009765625,
    ;
    assert(exact_cost(70) == 1598335260) by (nonlinear_arith)
        requires
            pow_nat(32, 70) == 2293498615990071511610820895302086940796564989168281123737588839386922876088484808070018553110125686554624,
            pow_nat(25, 70) == 71746481373430634031294954664443705921549411424077607513961896135157303433516062796115875244140625,
    ;
    assert(exact_cost(71) == 2045869130) by (nonlinear_arith)
        requires
            pow_nat(32, 71) == 73391955711682288371546268649666782105490079653384995959602842860381532034831513858240593699524021969747968,
            pow_nat(25, 71) == 1793662034335765850782373866611092648038735285601940187849047403378932585837901569902896881103515625,
    ;
    assert(exact_cost(72) == 2618712485) by (nonlinear_arith)
        requires
            pow_nat(32, 72) == 2348542582773833227889480596789337027375682548908319870707290971532209025114608443463698998384768703031934976,
            pow_nat(25, 72) == 44841550858394146269559346665277316200968382140048504696226185084473314645947539247572422027587890625,
    ;
    assert(exact_cost(73) == 3351951980) by (nonlinear_arith)
        requires
            pow_nat(32, 73) == 75153362648762663292463379097258784876021841565066235862633311089030688803667470190838367948312598497021919232,
            pow_nat(25, 73) == 1121038771459853656738983666631932905024209553501212617405654627111832866148688481189310550689697265625,
    ;
    assert(exact_cost(74) == 4290498540) by (nonlinear_arith)
        requires
            pow_nat(32, 74) == 2404907604760405225358828131112281116032698930082119547604265954848982041717359046106827774346003151904701415424,
            pow_nat(25, 74) == 28025969286496341418474591665798322625605238837530315435141365677795821653717212029732763767242431640625,
    ;
}

proof fn lemma_cost_75()
    ensures
        exact_cost(75) == 5491838130,
{
    lemma_pow32_values();
    lemma_pow25_values();
    assert(exact_cost(75) == 5491838130) by (nonlinear_arith)
        requires
            pow_nat(32, 75) == 76957043352332967211482500195592995713046365762627825523336510555167425334955489475418488779072100860950445293568,
            pow_nat(25, 75) == 700649232162408535461864791644958065640130970938257885878534141944895541342930300743319094181060791015625,
    ;
}

/// What it costs to get from `level` to `level + 1`. Grows geometrically
/// so early levels come quickly and later ones are a real haul, rounded
/// to a multiple of 5 so the number on the dashboard reads as a target.
pub fn cost_of(level: u32) -> (c: u32)
    ensures
        c == level_cost(level),
{
    let k: u32 = if level == 0 {
        0
    } else {
        level - 1
    };
    if k >= 0x8000_0000 {
        let n: u64 = 0x1_0000_0000u64 - k as u64;
        proof {
            lemma_shrunk_values();
            if n >= 8 {
                lemma_shrunk_floor(n as nat);
            }
        }
        return match n {
            2 => 30,
            3 => 25,
            4 => 20,
            5 => 15,
            6 => 10,
            7 => 10,
            _ => 5,
        };
    }
    if k >= 75 {
        proof {
            lemma_cost_75();
            lemma_exact_cost_monotone(75, k as nat);
        }
        return u32::MAX;
    }
    proof {
        lemma_cost_values_0_14();
        lemma_cost_values_15_29();
        lemma_cost_values_30_44();
        lemma_cost_values_45_59();
        lemma_cost_values_60_74();
    }
    let c: u32 =
        match k {
            0 => 50,
            1 => 65,
            2 => 80,
            3 => 105,
            4 => 135,
            5 => 170,
            6 => 220,
            7 => 280,
            8 => 360,
            9 => 460,
            10 => 590,
            11 => 755,
            12 => 965,
            13 => 1240,
            14 => 1585,
            15 => 2030,
            16 => 2595,
            17 => 3325,
            18 => 4255,
            19 => 5445,
            20 => 6970,
            21 => 8920,
            22 => 11420,
            23 => 14615,
            24 => 18705,
            25 => 23945,
            26 => 30650,
            27 => 39230,
            28 => 50215,
            29 => 64280,
            30 => 82275,
            31 => 105310,
            32 => 134800,
            33 => 172545,
            34 => 220855,
            35 => 282695,
            36 => 361850,
            37 => 463170,
            38 => 592855,
            39 => 758855,
            40 => 971335,
            41 => 1243310,
            42 => 1591435,
            43 => 2037035,
            44 => 2607405,
            45 => 3337480,
            46 => 4271975,
            47 => 5468125,
            48 => 6999200,
            49 => 8958980,
            50 => 11467495,
            51 => 14678390,
            52 => 18788340,
            53 => 24049075,
            54 => 30782815,
            55 => 39402005,
            56 => 50434570,
            57 => 64556245,
            58 => 82631995,
            59 => 105768955,
            60 => 135384260,
            61 => 173291855,
            62 => 221813575,
            63 => 283921375,
            64 => 363419360,
            65 => 465176785,
            66 => 595426285,
            67 => 762145640,
            68 => 975546420,
            69 => 1248699420,
            70 => 1598335260,
            71 => 2045869130,
            72 => 2618712485,
            73 => 3351951980,
            _ => 4290498540,
        }
    ;
    c
}

/// Law: each level from the first up to the 75th costs strictly more
/// than the one before it. (From level 76 on the cost stays at its cap,
/// see `costs_cap_from_level_76`.)
pub proof fn each_level_costs_more(level: u32)
    requires
        1 <= level <= 75,
    ensures
        level_cost(level) < level_cost((level + 1) as u32),
{
    let k = (level - 1) as nat;
    lemma_cost_values_60_74();
    lemma_exact_cost_monotone(k, 74);
    lemma_exact_cost_step(k);
}

/// Law: from level 76 on, up to where the exponent no longer fits, the
/// cost stays at its cap of `u32::MAX`: the next level costs the same.
pub proof fn costs_cap_from_level_76(level: u32)
    requires
        76 <= level <= 0x8000_0000,
    ensures
        level_cost(level) == u32::MAX,
{
    lemma_cost_75();
    lemma_exact_cost_monotone(75, (level - 1) as nat);
}

proof fn lemma_shrunk_values()
    ensures
        shrunk_cost(2) == 30,
        shrunk_cost(3) == 25,
        shrunk_cost(4) == 20,
        shrunk_cost(5) == 15,
        shrunk_cost(6) == 10,
        shrunk_cost(7) == 10,
{
    lemma_pow32_values();
    lemma_pow25_values();
    assert((20 * 625int + 1024int) / (2 * 1024int) == 6);
    assert((20 * 15625int + 32768int) / (2 * 32768int) == 5);
    assert((20 * 390625int + 1048576int) / (2 * 1048576int) == 4);
    assert((20 * 9765625int + 33554432int) / (2 * 33554432int) == 3);
    assert((20 * 244140625int + 1073741824int) / (2 * 1073741824int) == 2);
    assert((20 * 6103515625int + 34359738368int) / (2 * 34359738368int) == 2);
}

/// From `-8` on a wrapped exponent costs the minimum.
proof fn lemma_shrunk_floor(n: nat)
    requires
        n >= 8,
    ensures
        20 * pow_nat(25, n) < 3 * pow_nat(32, n),
        shrunk_cost(n) == 5,
    decreases n,
{
    if n == 8 {
        lemma_pow32_values();
        lemma_pow25_values();
    } else {
        lemma_shrunk_floor((n - 1) as nat);
        let a = pow_nat(25, (n - 1) as nat);
        let b = pow_nat(32, (n - 1) as nat);
        assert(20 * (25 * a) < 3 * (32 * b)) by (nonlinear_arith)
            requires
                20 * a < 3 * b,
                a >= 0,
        ;
    }
    let a = pow_nat(25, n);
    let b = pow_nat(32, n);
    lemma_pow_positive(32, n);
    assert((20 * a + b) / (2 * b) <= 1) by (nonlinear_arith)
        requires
            20 * a < 3 * b,
            b >= 1,
            a >= 0,
    ;
}

/// A wrapped exponent costs between 5 and 50.
proof fn lemma_shrunk_bounded(n: nat)
    ensures
        5 <= shrunk_cost(n) <= 50,
{
    let a = pow_nat(25, n);
    let b = pow_nat(32, n);
    lemma_pow_positive(32, n);
    lemma_pow_dominates(n);
    assert((20 * a + b) / (2 * b) <= 10) by (nonlinear_arith)
        requires
            a <= b,
            b >= 1,
            a >= 0,
    ;
}

/// Law: at the top of the range, where the exponent has wrapped to
/// -7 ..= -2, the cost climbs again, 10, 10, 15, 20, 25, 30: from level
/// 4294967291 on each level costs more than the one before it.
pub proof fn top_levels_cost_more(level: u32)
    requires
        4294967291 <= level < 4294967295,
    ensures
        level_cost(level) < level_cost((level + 1) as u32),
        level_cost(4294967290) == 10,
        level_cost(4294967295) == 30,
{
    lemma_shrunk_values();
}

/// Law: no level is ever free; every level costs at least 5.
pub proof fn every_level_costs_something(level: u32)
    ensures
        level_cost(level) >= 5,
{
    let k: nat = if level == 0 {
        0
    } else {
        (level - 1) as nat
    };
    if k >= 0x8000_0000 {
        lemma_shrunk_bounded((0x1_0000_0000 - k) as nat);
    } else {
        lemma_cost_values_0_14();
        lemma_exact_cost_monotone(0, k);
    }
}

#[derive(Debug, Clone, Copy, PartialEq, Eq, Structural)]
pub struct Progress {
    pub level: u32,
    /// XP banked toward the NEXT level, never the lifetime total
    pub xp: u32,
    pub total_xp: u64,
    pub closes: u32,
    pub pats: u32,
}

impl Default for Progress {
    fn default() -> (r: Self)
        ensures
            r == (Progress { level: 1, xp: 0, total_xp: 0, closes: 0, pats: 0 }),
    {
        Progress { level: 1, xp: 0, total_xp: 0, closes: 0, pats: 0 }
    }
}

/// The level, banked XP and levels gained once an award's XP has been
/// spent on as many levels as it reaches, at most 51 of them.
pub open spec fn spend(level: int, xp: int, gained: int) -> (int, int, int)
    decreases 51 - gained,
{
    if gained >= 51 || level < 0 || level > u32::MAX || xp < level_cost(level as u32) {
        (level, xp, gained)
    } else {
        spend(level + 1, xp - level_cost(level as u32), gained + 1)
    }
}

/// The level reached by an award, which must fit in 32 bits.
pub open spec fn award_outcome(p: Progress, amount: u32) -> (int, int, int) {
    spend(p.level as int, (if p.xp + amount > u32::MAX { u32::MAX as int } else { p.xp + amount }), 0)
}

proof fn lemma_spend_bounds(level: int, xp: int, gained: int)
    requires
        0 <= gained <= 51,
        0 <= xp,
        0 <= level,
    ensures
        spend(level, xp, gained).0 >= level,
        spend(level, xp, gained).0 - level == spend(level, xp, gained).2 - gained,
        0 <= spend(level, xp, gained).1 <= xp,
        gained <= spend(level, xp, gained).2 <= 51,
        spend(level, xp, gained).2 <= 50 && spend(level, xp, gained).0 <= u32::MAX ==> spend(level, xp, gained).1
            < level_cost(spend(level, xp, gained).0 as u32),
    decreases 51 - gained,
{
    if !(gained >= 51 || level < 0 || level > u32::MAX || xp < level_cost(level as u32)) {
        lemma_spend_bounds(level + 1, xp - level_cost(level as u32), gained + 1);
    }
}

impl Progress {
    /// Whether awarding `amount` keeps the level within 32 bits; `award`
    /// asks for that.
    pub fn award_fits(&self, amount: u32) -> (r: bool)
        ensures
            r == (award_outcome(*self, amount).0 <= u32::MAX),
    {
        let ghost target = award_outcome(*self, amount);
        let mut level: u64 = self.level as u64;
        let mut xp: u32 = self.xp.saturating_add(amount);
        let mut gained: u32 = 0;
        while gained < 51 && level <= 0xFFFF_FFFF && xp >= cost_of(level as u32)
            invariant
                spend(level as int, xp as int, gained as int) == target,
                gained <= 51,
                level <= 0x1_0000_0000,
            decreases 51 - gained,
        {
            let need = cost_of(level as u32);
            xp = xp - need;
            level = level + 1;
            gained = gained + 1;
        }
        level <= 0xFFFF_FFFF
    }

    /// What the next level costs.
    pub fn needed(&self) -> (c: u32)
        ensures
            c == level_cost(self.level),
    {
        cost_of(self.level)
    }

    /// Banks `amount` and returns how many levels that crossed. Loops
    /// rather than subtracting once, because a single award can carry a
    /// low level over more than one threshold. It stops after 51 levels,
    /// so after a very large award the XP left can still exceed what the
    /// next level costs.
    pub fn award(&mut self, amount: u32) -> (gained: u32)
        requires
            award_outcome(*old(self), amount).0 <= u32::MAX,
        ensures
            final(self).level == award_outcome(*old(self), amount).0,
            final(self).xp == award_outcome(*old(self), amount).1,
            gained == award_outcome(*old(self), amount).2,
            final(self).total_xp == (if old(self).total_xp + amount > u64::MAX {
                u64::MAX as int
            } else {
                old(self).total_xp + amount
            }),
            final(self).closes == old(self).closes,
            final(self).pats == old(self).pats,
            gained <= 51,
            final(self).level == old(self).level + gained,
            gained <= 50 ==> final(self).xp < level_cost(final(self).level),
    {
        self.xp = self.xp.saturating_add(amount);
        self.total_xp = self.total_xp.saturating_add(amount as u64);
        let ghost target = award_outcome(*old(self), amount);
        proof {
            lemma_spend_bounds(old(self).level as int, self.xp as int, 0);
        }
        let mut gained: u32 = 0;
        loop
            invariant_except_break
                gained <= 50,
            invariant
                spend(self.level as int, self.xp as int, gained as int) == target,
                gained <= 51,
                target.0 <= u32::MAX,
                target.0 - self.level == target.2 - gained,
                self.total_xp == (if old(self).total_xp + amount > u64::MAX {
                    u64::MAX as int
                } else {
                    old(self).total_xp + amount
                }),
                self.closes == old(self).closes,
                self.pats == old(self).pats,
            ensures
                gained == target.2,
                self.level == target.0,
                self.xp == target.1,
            decreases 51 - gained,
        {
            let need = self.needed();
            if self.xp < need {
                break;
            }
            proof {
                lemma_spend_bounds(self.level as int + 1, self.xp - need, gained as int + 1);
            }
            self.xp = self.xp - need;
            self.level = self.level + 1;
            gained = gained + 1;
            // a runaway award must not spin here forever
            if gained > 50 {
                break;
            }
        }
        proof {
            lemma_spend_bounds(old(self).level as int, (if old(self).xp + amount > u32::MAX { u32::MAX as int } else { old(self).xp + amount }), 0);
        }
        gained
    }
}


pub open spec fn notes_view(v: Seq<String>) -> Seq<Seq<char>> {
    v.map_values(|s: String| s@)
}

/// The name of the file in the configuration directory.
pub const PROGRESS_FILE: &'static str = "progress.json";

/// Where progress.json lives in the directory `dir`: `dir` followed by the
/// file name, with a path separator between them unless `dir` already
/// ends with one.
pub fn progress_path(dir: &str) -> (r: String)
    ensures
        ends_with(r@, PROGRESS_FILE@),
        !verbatim(dir@) ==> placed_in(r@, dir@, PROGRESS_FILE@),
{
    proof {
        reveal_strlit("progress.json");
        reveal_strlit(".");
        reveal_strlit("..");
        assert(PROGRESS_FILE@ == "progress.json"@);
    }
    join_path(dir, PROGRESS_FILE)
}

/// The progress to start with and the notes to show, from what loading
/// `progress.json` found: a missing file is a brand new cat, not an error.
pub open spec fn progress_load_view(loaded: LoadJson<Progress>) -> (Progress, Seq<Seq<char>>) {
    match loaded {
        LoadJson::Primary(p) => (p, seq![]),
        LoadJson::Backup(p) => (p, seq!["progress.json was recovered from its backup"@]),
        LoadJson::Missing => (Progress { level: 1, xp: 0, total_xp: 0, closes: 0, pats: 0 }, seq![]),
        LoadJson::Invalid { primary, backup } => (
            Progress { level: 1, xp: 0, total_xp: 0, closes: 0, pats: 0 },
            seq![
                "progress.json could not be read ("@ + failure_detail_text(primary@, opt_text(backup))
                    + "), using defaults"@,
            ],
        ),
    }
}

/// Decides the starting progress from what loading `progress.json` found.
pub fn load(loaded: LoadJson<Progress>) -> (r: (Progress, Vec<String>))
    ensures
        r.0 == progress_load_view(loaded).0,
        notes_view(r.1@) == progress_load_view(loaded).1,
{
    let ghost l = loaded;
    let mut notes: Vec<String> = Vec::new();
    let p = match loaded {
        LoadJson::Primary(p) => p,
        LoadJson::Backup(p) => {
            notes.push(String::from_str("progress.json was recovered from its backup"));
            p
        },
        LoadJson::Missing => Progress::default(),
        LoadJson::Invalid { primary, backup } => {
            let detail = failure_detail(&primary, &backup);
            notes.push(note3("progress.json could not be read (", &detail, "), using defaults"));
            Progress::default()
        },
    };
    assert(notes_view(notes@) =~= progress_load_view(l).1);
    (p, notes)
}

/// Law: saved progress loads back unchanged and without a note: after a
/// save that reported success, progress read back from the primary is
/// taken field for field.
pub proof fn saved_progress_loads_back(
    j: JobView,
    f: Files,
    init: Files,
    new: int,
    p: Progress,
    backup: FileRead<Progress>,
    r: LoadJson<Progress>,
)
    requires
        save_inv(j, f, init, new),
        j.stage == SaveStage::Finished,
        j.error is None,
        loaded(FileRead::Parsed(p), backup, r),
    ensures
        progress_load_view(r) == (p, Seq::<Seq<char>>::empty()),
{
    saved_value_loads_back(j, f, init, new, p, backup, r);
    assert(progress_load_view(r).1 =~= Seq::<Seq<char>>::empty());
}

} // verus!
