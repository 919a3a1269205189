//! 2^255 - 19 is prime: a Pocklington certificate, checked step by step.
use vstd::prelude::*;
use vstd::arithmetic::div_mod::lemma_small_mod;
use vstd::arithmetic::power::{lemma_pow1, pow};
use crate::field::{is_prime, p};
use crate::primality::{
    lemma_pocklington_factor, lemma_powmod_step, lemma_prime_by_factor, lemma_trial_prime,
    lemma_two_primes_divide, trial,
};

verus! {

/// 991 is prime, by trial division.
proof fn lemma_prime_p991()
    ensures
        is_prime(991nat),
{
    assert(trial(991nat, 32));
    assert(trial(991nat, 31));
    assert(trial(991nat, 30));
    assert(trial(991nat, 29));
    assert(trial(991nat, 28));
    assert(trial(991nat, 27));
    assert(trial(991nat, 26));
    assert(trial(991nat, 25));
    assert(trial(991nat, 24));
    assert(trial(991nat, 23));
    assert(trial(991nat, 22));
    assert(trial(991nat, 21));
    assert(trial(991nat, 20));
    assert(trial(991nat, 19));
    assert(trial(991nat, 18));
    assert(trial(991nat, 17));
    assert(trial(991nat, 16));
    assert(trial(991nat, 15));
    assert(trial(991nat, 14));
    assert(trial(991nat, 13));
    assert(trial(991nat, 12));
    assert(trial(991nat, 11));
    assert(trial(991nat, 10));
    assert(trial(991nat, 9));
    assert(trial(991nat, 8));
    assert(trial(991nat, 7));
    assert(trial(991nat, 6));
    assert(trial(991nat, 5));
    assert(trial(991nat, 4));
    assert(trial(991nat, 3));
    assert(trial(991nat, 2));
    lemma_trial_prime(991nat);
}

/// 103 is prime, by trial division.
proof fn lemma_prime_p103()
    ensures
        is_prime(103nat),
{
    assert(trial(103nat, 11));
    assert(trial(103nat, 10));
    assert(trial(103nat, 9));
    assert(trial(103nat, 8));
    assert(trial(103nat, 7));
    assert(trial(103nat, 6));
    assert(trial(103nat, 5));
    assert(trial(103nat, 4));
    assert(trial(103nat, 3));
    assert(trial(103nat, 2));
    lemma_trial_prime(103nat);
}

proof fn lemma_pow_p8574133_1()
    ensures
        pow(2, 8574132nat) % 8574133int == 1int,
{
    lemma_pow1(2);
    lemma_small_mod(2, 8574133nat);
    lemma_powmod_step(2, 8574133int, 1nat, 2int, 0, 4int);
    lemma_powmod_step(2, 8574133int, 2nat, 4int, 0, 16int);
    lemma_powmod_step(2, 8574133int, 4nat, 16int, 0, 256int);
    lemma_powmod_step(2, 8574133int, 8nat, 256int, 0, 65536int);
    lemma_powmod_step(2, 8574133int, 16nat, 65536int, 0, 7900796int);
    lemma_powmod_step(2, 8574133int, 32nat, 7900796int, 1, 7995723int);
    lemma_powmod_step(2, 8574133int, 65nat, 7995723int, 0, 4032573int);
    lemma_powmod_step(2, 8574133int, 130nat, 4032573int, 1, 168787int);
    lemma_powmod_step(2, 8574133int, 261nat, 168787int, 1, 2988953int);
    lemma_powmod_step(2, 8574133int, 523nat, 2988953int, 0, 5008593int);
    lemma_powmod_step(2, 8574133int, 1046nat, 5008593int, 1, 5426616int);
    lemma_powmod_step(2, 8574133int, 2093nat, 5426616int, 0, 1328301int);
    lemma_powmod_step(2, 8574133int, 4186nat, 1328301int, 1, 5489855int);
    lemma_powmod_step(2, 8574133int, 8373nat, 5489855int, 0, 1719375int);
    lemma_powmod_step(2, 8574133int, 16746nat, 1719375int, 0, 795954int);
    lemma_powmod_step(2, 8574133int, 33492nat, 795954int, 1, 165492int);
    lemma_powmod_step(2, 8574133int, 66985nat, 165492int, 0, 1821262int);
    lemma_powmod_step(2, 8574133int, 133970nat, 1821262int, 1, 3786395int);
    lemma_powmod_step(2, 8574133int, 267941nat, 3786395int, 1, 1484115int);
    lemma_powmod_step(2, 8574133int, 535883nat, 1484115int, 0, 5455121int);
    lemma_powmod_step(2, 8574133int, 1071766nat, 5455121int, 1, 6238023int);
    lemma_powmod_step(2, 8574133int, 2143533nat, 6238023int, 0, 8574132int);
    lemma_powmod_step(2, 8574133int, 4287066nat, 8574132int, 0, 1int);
}

proof fn lemma_pow_p8574133_2()
    ensures
        pow(2, 8652nat) % 8574133int == 3435729int,
{
    lemma_pow1(2);
    lemma_small_mod(2, 8574133nat);
    lemma_powmod_step(2, 8574133int, 1nat, 2int, 0, 4int);
    lemma_powmod_step(2, 8574133int, 2nat, 4int, 0, 16int);
    lemma_powmod_step(2, 8574133int, 4nat, 16int, 0, 256int);
    lemma_powmod_step(2, 8574133int, 8nat, 256int, 0, 65536int);
    lemma_powmod_step(2, 8574133int, 16nat, 65536int, 1, 7227459int);
    lemma_powmod_step(2, 8574133int, 33nat, 7227459int, 1, 6260493int);
    lemma_powmod_step(2, 8574133int, 67nat, 6260493int, 1, 430341int);
    lemma_powmod_step(2, 8574133int, 135nat, 430341int, 0, 677614int);
    lemma_powmod_step(2, 8574133int, 270nat, 677614int, 0, 7336713int);
    lemma_powmod_step(2, 8574133int, 540nat, 7336713int, 1, 2003323int);
    lemma_powmod_step(2, 8574133int, 1081nat, 2003323int, 1, 69772int);
    lemma_powmod_step(2, 8574133int, 2163nat, 69772int, 0, 6598573int);
    lemma_powmod_step(2, 8574133int, 4326nat, 6598573int, 0, 3435729int);
}

proof fn lemma_pow_p8574133_3()
    ensures
        pow(2, 83244nat) % 8574133int == 4321357int,
{
    lemma_pow1(2);
    lemma_small_mod(2, 8574133nat);
    lemma_powmod_step(2, 8574133int, 1nat, 2int, 0, 4int);
    lemma_powmod_step(2, 8574133int, 2nat, 4int, 1, 32int);
    lemma_powmod_step(2, 8574133int, 5nat, 32int, 0, 1024int);
    lemma_powmod_step(2, 8574133int, 10nat, 1024int, 0, 1048576int);
    lemma_powmod_step(2, 8574133int, 20nat, 1048576int, 0, 7682521int);
    lemma_powmod_step(2, 8574133int, 40nat, 7682521int, 1, 8138366int);
    lemma_powmod_step(2, 8574133int, 81nat, 8138366int, 0, 1554738int);
    lemma_powmod_step(2, 8574133int, 162nat, 1554738int, 1, 7068967int);
    lemma_powmod_step(2, 8574133int, 325nat, 7068967int, 0, 7247365int);
    lemma_powmod_step(2, 8574133int, 650nat, 7247365int, 0, 950259int);
    lemma_powmod_step(2, 8574133int, 1300nat, 950259int, 1, 6126239int);
    lemma_powmod_step(2, 8574133int, 2601nat, 6126239int, 0, 6427925int);
    lemma_powmod_step(2, 8574133int, 5202nat, 6427925int, 1, 375609int);
    lemma_powmod_step(2, 8574133int, 10405nat, 375609int, 1, 6672998int);
    lemma_powmod_step(2, 8574133int, 20811nat, 6672998int, 0, 8559937int);
    lemma_powmod_step(2, 8574133int, 41622nat, 8559937int, 0, 4321357int);
}

/// 8574133 is prime: Pocklington's criterion with a = 2 and the prime factors 991 and 103 of n - 1.
proof fn lemma_prime_p8574133()
    ensures
        is_prime(8574133nat),
{
    lemma_prime_p991();
    lemma_prime_p103();
    lemma_pow_p8574133_1();
    lemma_pow_p8574133_2();
    lemma_pow_p8574133_3();
    assert forall|f: nat| is_prime(f) && 8574133nat % f == 0 implies #[trigger] ((f - 1) as nat % 102073nat) == 0 by {
        lemma_pocklington_factor(8574133nat, 2, 991nat, 8652nat, 3435729nat, 1014251int, (0int - 406419int), f);
        lemma_pocklington_factor(8574133nat, 2, 103nat, 83244nat, 4321357nat, 3531099int, (0int - 1779671int), f);
        lemma_two_primes_divide(991nat, 103nat, (f - 1) as nat);
    }
    lemma_prime_by_factor(8574133nat, 102073nat);
}

/// 127 is prime, by trial division.
proof fn lemma_prime_p127()
    ensures
        is_prime(127nat),
{
    assert(trial(127nat, 12));
    assert(trial(127nat, 11));
    assert(trial(127nat, 10));
    assert(trial(127nat, 9));
    assert(trial(127nat, 8));
    assert(trial(127nat, 7));
    assert(trial(127nat, 6));
    assert(trial(127nat, 5));
    assert(trial(127nat, 4));
    assert(trial(127nat, 3));
    assert(trial(127nat, 2));
    lemma_trial_prime(127nat);
}

proof fn lemma_pow_p1919519569386763_4()
    ensures
        pow(2, 1919519569386762nat) % 1919519569386763int == 1int,
{
    lemma_pow1(2);
    lemma_small_mod(2, 1919519569386763nat);
    lemma_powmod_step(2, 1919519569386763int, 1nat, 2int, 1, 8int);
    lemma_powmod_step(2, 1919519569386763int, 3nat, 8int, 0, 64int);
    lemma_powmod_step(2, 1919519569386763int, 6nat, 64int, 1, 8192int);
    lemma_powmod_step(2, 1919519569386763int, 13nat, 8192int, 1, 134217728int);
    lemma_powmod_step(2, 1919519569386763int, 27nat, 134217728int, 0, 738722385001117int);
    lemma_powmod_step(2, 1919519569386763int, 54nat, 738722385001117int, 1, 727545914671860int);
    lemma_powmod_step(2, 1919519569386763int, 109nat, 727545914671860int, 0, 1707982561664023int);
    lemma_powmod_step(2, 1919519569386763int, 218nat, 1707982561664023int, 0, 1883053606468462int);
    lemma_powmod_step(2, 1919519569386763int, 436nat, 1883053606468462int, 0, 1218399375645901int);
    lemma_powmod_step(2, 1919519569386763int, 872nat, 1218399375645901int, 1, 1048428561119125int);
    lemma_powmod_step(2, 1919519569386763int, 1745nat, 1048428561119125int, 1, 983029438644116int);
    lemma_powmod_step(2, 1919519569386763int, 3491nat, 983029438644116int, 1, 1276865007405365int);
    lemma_powmod_step(2, 1919519569386763int, 6983nat, 1276865007405365int, 0, 1782700633356774int);
    lemma_powmod_step(2, 1919519569386763int, 13966nat, 1782700633356774int, 0, 155115138769213int);
    lemma_powmod_step(2, 1919519569386763int, 27932nat, 155115138769213int, 1, 1540151232679855int);
    lemma_powmod_step(2, 1919519569386763int, 55865nat, 1540151232679855int, 0, 1337673856271569int);
    lemma_powmod_step(2, 1919519569386763int, 111730nat, 1337673856271569int, 1, 1240524135727115int);
    lemma_powmod_step(2, 1919519569386763int, 223461nat, 1240524135727115int, 0, 1605194465086707int);
    lemma_powmod_step(2, 1919519569386763int, 446922nat, 1605194465086707int, 1, 1584898865799303int);
    lemma_powmod_step(2, 1919519569386763int, 893845nat, 1584898865799303int, 1, 1234761903320143int);
    lemma_powmod_step(2, 1919519569386763int, 1787691nat, 1234761903320143int, 1, 1236775547659108int);
    lemma_powmod_step(2, 1919519569386763int, 3575383nat, 1236775547659108int, 1, 663762456135973int);
    lemma_powmod_step(2, 1919519569386763int, 7150767nat, 663762456135973int, 1, 319119283482142int);
    lemma_powmod_step(2, 1919519569386763int, 14301535nat, 319119283482142int, 0, 583227397151574int);
    lemma_powmod_step(2, 1919519569386763int, 28603070nat, 583227397151574int, 1, 1285925159134152int);
    lemma_powmod_step(2, 1919519569386763int, 57206141nat, 1285925159134152int, 0, 1288133935665634int);
    lemma_powmod_step(2, 1919519569386763int, 114412282nat, 1288133935665634int, 0, 982476880612083int);
    lemma_powmod_step(2, 1919519569386763int, 228824564nat, 982476880612083int, 0, 1576128850903146int);
    lemma_powmod_step(2, 1919519569386763int, 457649128nat, 1576128850903146int, 0, 102480519386059int);
    lemma_powmod_step(2, 1919519569386763int, 915298256nat, 102480519386059int, 1, 478332744685509int);
    lemma_powmod_step(2, 1919519569386763int, 1830596513nat, 478332744685509int, 0, 1487279716212833int);
    lemma_powmod_step(2, 1919519569386763int, 3661193026nat, 1487279716212833int, 0, 1304919163493228int);
    lemma_powmod_step(2, 1919519569386763int, 7322386052nat, 1304919163493228int, 1, 1547425167823372int);
    lemma_powmod_step(2, 1919519569386763int, 14644772105nat, 1547425167823372int, 0, 1260964203976354int);
    lemma_powmod_step(2, 1919519569386763int, 29289544210nat, 1260964203976354int, 1, 1320395793464735int);
    lemma_powmod_step(2, 1919519569386763int, 58579088421nat, 1320395793464735int, 0, 1801342537169365int);
    lemma_powmod_step(2, 1919519569386763int, 117158176842nat, 1801342537169365int, 0, 570314888571782int);
    lemma_powmod_step(2, 1919519569386763int, 234316353684nat, 570314888571782int, 1, 1457759193220502int);
    lemma_powmod_step(2, 1919519569386763int, 468632707369nat, 1457759193220502int, 1, 904421507342417int);
    lemma_powmod_step(2, 1919519569386763int, 937265414739nat, 904421507342417int, 1, 980872974037245int);
    lemma_powmod_step(2, 1919519569386763int, 1874530829479nat, 980872974037245int, 0, 913994118954357int);
    lemma_powmod_step(2, 1919519569386763int, 3749061658958nat, 913994118954357int, 1, 1653595313679539int);
    lemma_powmod_step(2, 1919519569386763int, 7498123317917nat, 1653595313679539int, 0, 54183760337980int);
    lemma_powmod_step(2, 1919519569386763int, 14996246635834nat, 54183760337980int, 0, 1009058406760638int);
    lemma_powmod_step(2, 1919519569386763int, 29992493271668nat, 1009058406760638int, 0, 404389713772051int);
    lemma_powmod_step(2, 1919519569386763int, 59984986543336nat, 404389713772051int, 0, 1499052552647828int);
    lemma_powmod_step(2, 1919519569386763int, 119969973086672nat, 1499052552647828int, 1, 636366037097131int);
    lemma_powmod_step(2, 1919519569386763int, 239939946173345nat, 636366037097131int, 0, 828224193213505int);
    lemma_powmod_step(2, 1919519569386763int, 479879892346690nat, 828224193213505int, 1, 1919519569386762int);
    lemma_powmod_step(2, 1919519569386763int, 959759784693381nat, 1919519569386762int, 0, 1int);
}

proof fn lemma_pow_p1919519569386763_5()
    ensures
        pow(2, 223873314nat) % 1919519569386763int == 1059928654987441int,
{
    lemma_pow1(2);
    lemma_small_mod(2, 1919519569386763nat);
    lemma_powmod_step(2, 1919519569386763int, 1nat, 2int, 1, 8int);
    lemma_powmod_step(2, 1919519569386763int, 3nat, 8int, 0, 64int);
    lemma_powmod_step(2, 1919519569386763int, 6nat, 64int, 1, 8192int);
    lemma_powmod_step(2, 1919519569386763int, 13nat, 8192int, 0, 67108864int);
    lemma_powmod_step(2, 1919519569386763int, 26nat, 67108864int, 1, 1329120977193940int);
    lemma_powmod_step(2, 1919519569386763int, 53nat, 1329120977193940int, 0, 1050703024027364int);
    lemma_powmod_step(2, 1919519569386763int, 106nat, 1050703024027364int, 1, 1672969091722082int);
    lemma_powmod_step(2, 1919519569386763int, 213nat, 1672969091722082int, 1, 925947007178930int);
    lemma_powmod_step(2, 1919519569386763int, 427nat, 925947007178930int, 0, 1131232746713132int);
    lemma_powmod_step(2, 1919519569386763int, 854nat, 1131232746713132int, 0, 1867384059597339int);
    lemma_powmod_step(2, 1919519569386763int, 1708nat, 1867384059597339int, 0, 439825148891359int);
    lemma_powmod_step(2, 1919519569386763int, 3416nat, 439825148891359int, 0, 1175992818124362int);
    lemma_powmod_step(2, 1919519569386763int, 6832nat, 1175992818124362int, 0, 1417188017686439int);
    lemma_powmod_step(2, 1919519569386763int, 13664nat, 1417188017686439int, 0, 230433742489034int);
    lemma_powmod_step(2, 1919519569386763int, 27328nat, 230433742489034int, 0, 1384618485920380int);
    lemma_powmod_step(2, 1919519569386763int, 54656nat, 1384618485920380int, 1, 708183098878551int);
    lemma_powmod_step(2, 1919519569386763int, 109313nat, 708183098878551int, 0, 821990456217230int);
    lemma_powmod_step(2, 1919519569386763int, 218626nat, 821990456217230int, 0, 1538409348524363int);
    lemma_powmod_step(2, 1919519569386763int, 437252nat, 1538409348524363int, 1, 1639521232619602int);
    lemma_powmod_step(2, 1919519569386763int, 874505nat, 1639521232619602int, 0, 1373123636036409int);
    lemma_powmod_step(2, 1919519569386763int, 1749010nat, 1373123636036409int, 0, 280066608751023int);
    lemma_powmod_step(2, 1919519569386763int, 3498020nat, 280066608751023int, 1, 1337932286834251int);
    lemma_powmod_step(2, 1919519569386763int, 6996041nat, 1337932286834251int, 0, 661679051269421int);
    lemma_powmod_step(2, 1919519569386763int, 13992082nat, 661679051269421int, 0, 1001669444392439int);
    lemma_powmod_step(2, 1919519569386763int, 27984164nat, 1001669444392439int, 0, 1817493499934335int);
    lemma_powmod_step(2, 1919519569386763int, 55968328nat, 1817493499934335int, 1, 364420849266308int);
    lemma_powmod_step(2, 1919519569386763int, 111936657nat, 364420849266308int, 0, 1059928654987441int);
}

proof fn lemma_pow_p1919519569386763_6()
    ensures
        pow(2, 15114327318006nat) % 1919519569386763int == 576774792492622int,
{
    lemma_pow1(2);
    lemma_small_mod(2, 1919519569386763nat);
    lemma_powmod_step(2, 1919519569386763int, 1nat, 2int, 1, 8int);
    lemma_powmod_step(2, 1919519569386763int, 3nat, 8int, 0, 64int);
    lemma_powmod_step(2, 1919519569386763int, 6nat, 64int, 1, 8192int);
    lemma_powmod_step(2, 1919519569386763int, 13nat, 8192int, 1, 134217728int);
    lemma_powmod_step(2, 1919519569386763int, 27nat, 134217728int, 0, 738722385001117int);
    lemma_powmod_step(2, 1919519569386763int, 54nat, 738722385001117int, 1, 727545914671860int);
    lemma_powmod_step(2, 1919519569386763int, 109nat, 727545914671860int, 1, 1496445553941283int);
    lemma_powmod_step(2, 1919519569386763int, 219nat, 1496445553941283int, 1, 1627791866040355int);
    lemma_powmod_step(2, 1919519569386763int, 439nat, 1627791866040355int, 1, 474034962347525int);
    lemma_powmod_step(2, 1919519569386763int, 879nat, 474034962347525int, 1, 1592438502988676int);
    lemma_powmod_step(2, 1919519569386763int, 1759nat, 1592438502988676int, 1, 1321066390386271int);
    lemma_powmod_step(2, 1919519569386763int, 3519nat, 1321066390386271int, 0, 308700615235581int);
    lemma_powmod_step(2, 1919519569386763int, 7038nat, 308700615235581int, 0, 1422904383673020int);
    lemma_powmod_step(2, 1919519569386763int, 14076nat, 1422904383673020int, 0, 23971194455622int);
    lemma_powmod_step(2, 1919519569386763int, 28152nat, 23971194455622int, 1, 1823960500244398int);
    lemma_powmod_step(2, 1919519569386763int, 56305nat, 1823960500244398int, 0, 389468657894446int);
    lemma_powmod_step(2, 1919519569386763int, 112610nat, 389468657894446int, 1, 413167392912096int);
    lemma_powmod_step(2, 1919519569386763int, 225221nat, 413167392912096int, 0, 1405857012733760int);
    lemma_powmod_step(2, 1919519569386763int, 450442nat, 1405857012733760int, 0, 575143645685246int);
    lemma_powmod_step(2, 1919519569386763int, 900884nat, 575143645685246int, 0, 1040347118601168int);
    lemma_powmod_step(2, 1919519569386763int, 1801768nat, 1040347118601168int, 0, 1740461794616202int);
    lemma_powmod_step(2, 1919519569386763int, 3603536nat, 1740461794616202int, 0, 866923939464831int);
    lemma_powmod_step(2, 1919519569386763int, 7207072nat, 866923939464831int, 1, 1399712894276221int);
    lemma_powmod_step(2, 1919519569386763int, 14414145nat, 1399712894276221int, 1, 81880778242677int);
    lemma_powmod_step(2, 1919519569386763int, 28828291nat, 81880778242677int, 1, 1080451766835894int);
    lemma_powmod_step(2, 1919519569386763int, 57656583nat, 1080451766835894int, 0, 984174035796149int);
    lemma_powmod_step(2, 1919519569386763int, 115313166nat, 984174035796149int, 0, 1149642923455661int);
    lemma_powmod_step(2, 1919519569386763int, 230626332nat, 1149642923455661int, 0, 348237932648578int);
    lemma_powmod_step(2, 1919519569386763int, 461252664nat, 348237932648578int, 1, 1876761100069854int);
    lemma_powmod_step(2, 1919519569386763int, 922505329nat, 1876761100069854int, 0, 659314630018135int);
    lemma_powmod_step(2, 1919519569386763int, 1845010658nat, 659314630018135int, 1, 568675053589795int);
    lemma_powmod_step(2, 1919519569386763int, 3690021317nat, 568675053589795int, 1, 597897700948694int);
    lemma_powmod_step(2, 1919519569386763int, 7380042635nat, 597897700948694int, 1, 695314063789591int);
    lemma_powmod_step(2, 1919519569386763int, 14760085271nat, 695314063789591int, 0, 1569228264582905int);
    lemma_powmod_step(2, 1919519569386763int, 29520170542nat, 1569228264582905int, 1, 1320941823257237int);
    lemma_powmod_step(2, 1919519569386763int, 59040341085nat, 1320941823257237int, 1, 59742302844058int);
    lemma_powmod_step(2, 1919519569386763int, 118080682171nat, 59742302844058int, 1, 1233058283147163int);
    lemma_powmod_step(2, 1919519569386763int, 236161364343nat, 1233058283147163int, 1, 308972555184494int);
    lemma_powmod_step(2, 1919519569386763int, 472322728687nat, 308972555184494int, 1, 1691588563548211int);
    lemma_powmod_step(2, 1919519569386763int, 944645457375nat, 1691588563548211int, 0, 1316385673573775int);
    lemma_powmod_step(2, 1919519569386763int, 1889290914750nat, 1316385673573775int, 1, 66860336859737int);
    lemma_powmod_step(2, 1919519569386763int, 3778581829501nat, 66860336859737int, 1, 1714022174481554int);
    lemma_powmod_step(2, 1919519569386763int, 7557163659003nat, 1714022174481554int, 0, 576774792492622int);
}

/// 1919519569386763 is prime: Pocklington's criterion with a = 2 and the prime factors 8574133 and 127 of n - 1.
proof fn lemma_prime_p1919519569386763()
    ensures
        is_prime(1919519569386763nat),
{
    lemma_prime_p8574133();
    lemma_prime_p127();
    lemma_pow_p1919519569386763_4();
    lemma_pow_p1919519569386763_5();
    lemma_pow_p1919519569386763_6();
    assert forall|f: nat| is_prime(f) && 1919519569386763nat % f == 0 implies #[trigger] ((f - 1) as nat % 1088914891nat) == 0 by {
        lemma_pocklington_factor(1919519569386763nat, 2, 8574133nat, 223873314nat, 1059928654987441nat, (0int - 628972351238870int), 347308685415427int, f);
        lemma_pocklington_factor(1919519569386763nat, 2, 127nat, 15114327318006nat, 576774792492622nat, (0int - 49370792198991int), 14834872683724int, f);
        lemma_two_primes_divide(8574133nat, 127nat, (f - 1) as nat);
    }
    lemma_prime_by_factor(1919519569386763nat, 1088914891nat);
}

/// 569003 is prime, by trial division.
proof fn lemma_prime_p569003()
    ensures
        is_prime(569003nat),
{
    assert(trial(569003nat, 755));
    assert(trial(569003nat, 754));
    assert(trial(569003nat, 753));
    assert(trial(569003nat, 752));
    assert(trial(569003nat, 751));
    assert(trial(569003nat, 750));
    assert(trial(569003nat, 749));
    assert(trial(569003nat, 748));
    assert(trial(569003nat, 747));
    assert(trial(569003nat, 746));
    assert(trial(569003nat, 745));
    assert(trial(569003nat, 744));
    assert(trial(569003nat, 743));
    assert(trial(569003nat, 742));
    assert(trial(569003nat, 741));
    assert(trial(569003nat, 740));
    assert(trial(569003nat, 739));
    assert(trial(569003nat, 738));
    assert(trial(569003nat, 737));
    assert(trial(569003nat, 736));
    assert(trial(569003nat, 735));
    assert(trial(569003nat, 734));
    assert(trial(569003nat, 733));
    assert(trial(569003nat, 732));
    assert(trial(569003nat, 731));
    assert(trial(569003nat, 730));
    assert(trial(569003nat, 729));
    assert(trial(569003nat, 728));
    assert(trial(569003nat, 727));
    assert(trial(569003nat, 726));
    assert(trial(569003nat, 725));
    assert(trial(569003nat, 724));
    assert(trial(569003nat, 723));
    assert(trial(569003nat, 722));
    assert(trial(569003nat, 721));
    assert(trial(569003nat, 720));
    assert(trial(569003nat, 719));
    assert(trial(569003nat, 718));
    assert(trial(569003nat, 717));
    assert(trial(569003nat, 716));
    assert(trial(569003nat, 715));
    assert(trial(569003nat, 714));
    assert(trial(569003nat, 713));
    assert(trial(569003nat, 712));
    assert(trial(569003nat, 711));
    assert(trial(569003nat, 710));
    assert(trial(569003nat, 709));
    assert(trial(569003nat, 708));
    assert(trial(569003nat, 707));
    assert(trial(569003nat, 706));
    assert(trial(569003nat, 705));
    assert(trial(569003nat, 704));
    assert(trial(569003nat, 703));
    assert(trial(569003nat, 702));
    assert(trial(569003nat, 701));
    assert(trial(569003nat, 700));
    assert(trial(569003nat, 699));
    assert(trial(569003nat, 698));
    assert(trial(569003nat, 697));
    assert(trial(569003nat, 696));
    assert(trial(569003nat, 695));
    assert(trial(569003nat, 694));
    assert(trial(569003nat, 693));
    assert(trial(569003nat, 692));
    assert(trial(569003nat, 691));
    assert(trial(569003nat, 690));
    assert(trial(569003nat, 689));
    assert(trial(569003nat, 688));
    assert(trial(569003nat, 687));
    assert(trial(569003nat, 686));
    assert(trial(569003nat, 685));
    assert(trial(569003nat, 684));
    assert(trial(569003nat, 683));
    assert(trial(569003nat, 682));
    assert(trial(569003nat, 681));
    assert(trial(569003nat, 680));
    assert(trial(569003nat, 679));
    assert(trial(569003nat, 678));
    assert(trial(569003nat, 677));
    assert(trial(569003nat, 676));
    assert(trial(569003nat, 675));
    assert(trial(569003nat, 674));
    assert(trial(569003nat, 673));
    assert(trial(569003nat, 672));
    assert(trial(569003nat, 671));
    assert(trial(569003nat, 670));
    assert(trial(569003nat, 669));
    assert(trial(569003nat, 668));
    assert(trial(569003nat, 667));
    assert(trial(569003nat, 666));
    assert(trial(569003nat, 665));
    assert(trial(569003nat, 664));
    assert(trial(569003nat, 663));
    assert(trial(569003nat, 662));
    assert(trial(569003nat, 661));
    assert(trial(569003nat, 660));
    assert(trial(569003nat, 659));
    assert(trial(569003nat, 658));
    assert(trial(569003nat, 657));
    assert(trial(569003nat, 656));
    assert(trial(569003nat, 655));
    assert(trial(569003nat, 654));
    assert(trial(569003nat, 653));
    assert(trial(569003nat, 652));
    assert(trial(569003nat, 651));
    assert(trial(569003nat, 650));
    assert(trial(569003nat, 649));
    assert(trial(569003nat, 648));
    assert(trial(569003nat, 647));
    assert(trial(569003nat, 646));
    assert(trial(569003nat, 645));
    assert(trial(569003nat, 644));
    assert(trial(569003nat, 643));
    assert(trial(569003nat, 642));
    assert(trial(569003nat, 641));
    assert(trial(569003nat, 640));
    assert(trial(569003nat, 639));
    assert(trial(569003nat, 638));
    assert(trial(569003nat, 637));
    assert(trial(569003nat, 636));
    assert(trial(569003nat, 635));
    assert(trial(569003nat, 634));
    assert(trial(569003nat, 633));
    assert(trial(569003nat, 632));
    assert(trial(569003nat, 631));
    assert(trial(569003nat, 630));
    assert(trial(569003nat, 629));
    assert(trial(569003nat, 628));
    assert(trial(569003nat, 627));
    assert(trial(569003nat, 626));
    assert(trial(569003nat, 625));
    assert(trial(569003nat, 624));
    assert(trial(569003nat, 623));
    assert(trial(569003nat, 622));
    assert(trial(569003nat, 621));
    assert(trial(569003nat, 620));
    assert(trial(569003nat, 619));
    assert(trial(569003nat, 618));
    assert(trial(569003nat, 617));
    assert(trial(569003nat, 616));
    assert(trial(569003nat, 615));
    assert(trial(569003nat, 614));
    assert(trial(569003nat, 613));
    assert(trial(569003nat, 612));
    assert(trial(569003nat, 611));
    assert(trial(569003nat, 610));
    assert(trial(569003nat, 609));
    assert(trial(569003nat, 608));
    assert(trial(569003nat, 607));
    assert(trial(569003nat, 606));
    assert(trial(569003nat, 605));
    assert(trial(569003nat, 604));
    assert(trial(569003nat, 603));
    assert(trial(569003nat, 602));
    assert(trial(569003nat, 601));
    assert(trial(569003nat, 600));
    assert(trial(569003nat, 599));
    assert(trial(569003nat, 598));
    assert(trial(569003nat, 597));
    assert(trial(569003nat, 596));
    assert(trial(569003nat, 595));
    assert(trial(569003nat, 594));
    assert(trial(569003nat, 593));
    assert(trial(569003nat, 592));
    assert(trial(569003nat, 591));
    assert(trial(569003nat, 590));
    assert(trial(569003nat, 589));
    assert(trial(569003nat, 588));
    assert(trial(569003nat, 587));
    assert(trial(569003nat, 586));
    assert(trial(569003nat, 585));
    assert(trial(569003nat, 584));
    assert(trial(569003nat, 583));
    assert(trial(569003nat, 582));
    assert(trial(569003nat, 581));
    assert(trial(569003nat, 580));
    assert(trial(569003nat, 579));
    assert(trial(569003nat, 578));
    assert(trial(569003nat, 577));
    assert(trial(569003nat, 576));
    assert(trial(569003nat, 575));
    assert(trial(569003nat, 574));
    assert(trial(569003nat, 573));
    assert(trial(569003nat, 572));
    assert(trial(569003nat, 571));
    assert(trial(569003nat, 570));
    assert(trial(569003nat, 569));
    assert(trial(569003nat, 568));
    assert(trial(569003nat, 567));
    assert(trial(569003nat, 566));
    assert(trial(569003nat, 565));
    assert(trial(569003nat, 564));
    assert(trial(569003nat, 563));
    assert(trial(569003nat, 562));
    assert(trial(569003nat, 561));
    assert(trial(569003nat, 560));
    assert(trial(569003nat, 559));
    assert(trial(569003nat, 558));
    assert(trial(569003nat, 557));
    assert(trial(569003nat, 556));
    assert(trial(569003nat, 555));
    assert(trial(569003nat, 554));
    assert(trial(569003nat, 553));
    assert(trial(569003nat, 552));
    assert(trial(569003nat, 551));
    assert(trial(569003nat, 550));
    assert(trial(569003nat, 549));
    assert(trial(569003nat, 548));
    assert(trial(569003nat, 547));
    assert(trial(569003nat, 546));
    assert(trial(569003nat, 545));
    assert(trial(569003nat, 544));
    assert(trial(569003nat, 543));
    assert(trial(569003nat, 542));
    assert(trial(569003nat, 541));
    assert(trial(569003nat, 540));
    assert(trial(569003nat, 539));
    assert(trial(569003nat, 538));
    assert(trial(569003nat, 537));
    assert(trial(569003nat, 536));
    assert(trial(569003nat, 535));
    assert(trial(569003nat, 534));
    assert(trial(569003nat, 533));
    assert(trial(569003nat, 532));
    assert(trial(569003nat, 531));
    assert(trial(569003nat, 530));
    assert(trial(569003nat, 529));
    assert(trial(569003nat, 528));
    assert(trial(569003nat, 527));
    assert(trial(569003nat, 526));
    assert(trial(569003nat, 525));
    assert(trial(569003nat, 524));
    assert(trial(569003nat, 523));
    assert(trial(569003nat, 522));
    assert(trial(569003nat, 521));
    assert(trial(569003nat, 520));
    assert(trial(569003nat, 519));
    assert(trial(569003nat, 518));
    assert(trial(569003nat, 517));
    assert(trial(569003nat, 516));
    assert(trial(569003nat, 515));
    assert(trial(569003nat, 514));
    assert(trial(569003nat, 513));
    assert(trial(569003nat, 512));
    assert(trial(569003nat, 511));
    assert(trial(569003nat, 510));
    assert(trial(569003nat, 509));
    assert(trial(569003nat, 508));
    assert(trial(569003nat, 507));
    assert(trial(569003nat, 506));
    assert(trial(569003nat, 505));
    assert(trial(569003nat, 504));
    assert(trial(569003nat, 503));
    assert(trial(569003nat, 502));
    assert(trial(569003nat, 501));
    assert(trial(569003nat, 500));
    assert(trial(569003nat, 499));
    assert(trial(569003nat, 498));
    assert(trial(569003nat, 497));
    assert(trial(569003nat, 496));
    assert(trial(569003nat, 495));
    assert(trial(569003nat, 494));
    assert(trial(569003nat, 493));
    assert(trial(569003nat, 492));
    assert(trial(569003nat, 491));
    assert(trial(569003nat, 490));
    assert(trial(569003nat, 489));
    assert(trial(569003nat, 488));
    assert(trial(569003nat, 487));
    assert(trial(569003nat, 486));
    assert(trial(569003nat, 485));
    assert(trial(569003nat, 484));
    assert(trial(569003nat, 483));
    assert(trial(569003nat, 482));
    assert(trial(569003nat, 481));
    assert(trial(569003nat, 480));
    assert(trial(569003nat, 479));
    assert(trial(569003nat, 478));
    assert(trial(569003nat, 477));
    assert(trial(569003nat, 476));
    assert(trial(569003nat, 475));
    assert(trial(569003nat, 474));
    assert(trial(569003nat, 473));
    assert(trial(569003nat, 472));
    assert(trial(569003nat, 471));
    assert(trial(569003nat, 470));
    assert(trial(569003nat, 469));
    assert(trial(569003nat, 468));
    assert(trial(569003nat, 467));
    assert(trial(569003nat, 466));
    assert(trial(569003nat, 465));
    assert(trial(569003nat, 464));
    assert(trial(569003nat, 463));
    assert(trial(569003nat, 462));
    assert(trial(569003nat, 461));
    assert(trial(569003nat, 460));
    assert(trial(569003nat, 459));
    assert(trial(569003nat, 458));
    assert(trial(569003nat, 457));
    assert(trial(569003nat, 456));
    assert(trial(569003nat, 455));
    assert(trial(569003nat, 454));
    assert(trial(569003nat, 453));
    assert(trial(569003nat, 452));
    assert(trial(569003nat, 451));
    assert(trial(569003nat, 450));
    assert(trial(569003nat, 449));
    assert(trial(569003nat, 448));
    assert(trial(569003nat, 447));
    assert(trial(569003nat, 446));
    assert(trial(569003nat, 445));
    assert(trial(569003nat, 444));
    assert(trial(569003nat, 443));
    assert(trial(569003nat, 442));
    assert(trial(569003nat, 441));
    assert(trial(569003nat, 440));
    assert(trial(569003nat, 439));
    assert(trial(569003nat, 438));
    assert(trial(569003nat, 437));
    assert(trial(569003nat, 436));
    assert(trial(569003nat, 435));
    assert(trial(569003nat, 434));
    assert(trial(569003nat, 433));
    assert(trial(569003nat, 432));
    assert(trial(569003nat, 431));
    assert(trial(569003nat, 430));
    assert(trial(569003nat, 429));
    assert(trial(569003nat, 428));
    assert(trial(569003nat, 427));
    assert(trial(569003nat, 426));
    assert(trial(569003nat, 425));
    assert(trial(569003nat, 424));
    assert(trial(569003nat, 423));
    assert(trial(569003nat, 422));
    assert(trial(569003nat, 421));
    assert(trial(569003nat, 420));
    assert(trial(569003nat, 419));
    assert(trial(569003nat, 418));
    assert(trial(569003nat, 417));
    assert(trial(569003nat, 416));
    assert(trial(569003nat, 415));
    assert(trial(569003nat, 414));
    assert(trial(569003nat, 413));
    assert(trial(569003nat, 412));
    assert(trial(569003nat, 411));
    assert(trial(569003nat, 410));
    assert(trial(569003nat, 409));
    assert(trial(569003nat, 408));
    assert(trial(569003nat, 407));
    assert(trial(569003nat, 406));
    assert(trial(569003nat, 405));
    assert(trial(569003nat, 404));
    assert(trial(569003nat, 403));
    assert(trial(569003nat, 402));
    assert(trial(569003nat, 401));
    assert(trial(569003nat, 400));
    assert(trial(569003nat, 399));
    assert(trial(569003nat, 398));
    assert(trial(569003nat, 397));
    assert(trial(569003nat, 396));
    assert(trial(569003nat, 395));
    assert(trial(569003nat, 394));
    assert(trial(569003nat, 393));
    assert(trial(569003nat, 392));
    assert(trial(569003nat, 391));
    assert(trial(569003nat, 390));
    assert(trial(569003nat, 389));
    assert(trial(569003nat, 388));
    assert(trial(569003nat, 387));
    assert(trial(569003nat, 386));
    assert(trial(569003nat, 385));
    assert(trial(569003nat, 384));
    assert(trial(569003nat, 383));
    assert(trial(569003nat, 382));
    assert(trial(569003nat, 381));
    assert(trial(569003nat, 380));
    assert(trial(569003nat, 379));
    assert(trial(569003nat, 378));
    assert(trial(569003nat, 377));
    assert(trial(569003nat, 376));
    assert(trial(569003nat, 375));
    assert(trial(569003nat, 374));
    assert(trial(569003nat, 373));
    assert(trial(569003nat, 372));
    assert(trial(569003nat, 371));
    assert(trial(569003nat, 370));
    assert(trial(569003nat, 369));
    assert(trial(569003nat, 368));
    assert(trial(569003nat, 367));
    assert(trial(569003nat, 366));
    assert(trial(569003nat, 365));
    assert(trial(569003nat, 364));
    assert(trial(569003nat, 363));
    assert(trial(569003nat, 362));
    assert(trial(569003nat, 361));
    assert(trial(569003nat, 360));
    assert(trial(569003nat, 359));
    assert(trial(569003nat, 358));
    assert(trial(569003nat, 357));
    assert(trial(569003nat, 356));
    assert(trial(569003nat, 355));
    assert(trial(569003nat, 354));
    assert(trial(569003nat, 353));
    assert(trial(569003nat, 352));
    assert(trial(569003nat, 351));
    assert(trial(569003nat, 350));
    assert(trial(569003nat, 349));
    assert(trial(569003nat, 348));
    assert(trial(569003nat, 347));
    assert(trial(569003nat, 346));
    assert(trial(569003nat, 345));
    assert(trial(569003nat, 344));
    assert(trial(569003nat, 343));
    assert(trial(569003nat, 342));
    assert(trial(569003nat, 341));
    assert(trial(569003nat, 340));
    assert(trial(569003nat, 339));
    assert(trial(569003nat, 338));
    assert(trial(569003nat, 337));
    assert(trial(569003nat, 336));
    assert(trial(569003nat, 335));
    assert(trial(569003nat, 334));
    assert(trial(569003nat, 333));
    assert(trial(569003nat, 332));
    assert(trial(569003nat, 331));
    assert(trial(569003nat, 330));
    assert(trial(569003nat, 329));
    assert(trial(569003nat, 328));
    assert(trial(569003nat, 327));
    assert(trial(569003nat, 326));
    assert(trial(569003nat, 325));
    assert(trial(569003nat, 324));
    assert(trial(569003nat, 323));
    assert(trial(569003nat, 322));
    assert(trial(569003nat, 321));
    assert(trial(569003nat, 320));
    assert(trial(569003nat, 319));
    assert(trial(569003nat, 318));
    assert(trial(569003nat, 317));
    assert(trial(569003nat, 316));
    assert(trial(569003nat, 315));
    assert(trial(569003nat, 314));
    assert(trial(569003nat, 313));
    assert(trial(569003nat, 312));
    assert(trial(569003nat, 311));
    assert(trial(569003nat, 310));
    assert(trial(569003nat, 309));
    assert(trial(569003nat, 308));
    assert(trial(569003nat, 307));
    assert(trial(569003nat, 306));
    assert(trial(569003nat, 305));
    assert(trial(569003nat, 304));
    assert(trial(569003nat, 303));
    assert(trial(569003nat, 302));
    assert(trial(569003nat, 301));
    assert(trial(569003nat, 300));
    assert(trial(569003nat, 299));
    assert(trial(569003nat, 298));
    assert(trial(569003nat, 297));
    assert(trial(569003nat, 296));
    assert(trial(569003nat, 295));
    assert(trial(569003nat, 294));
    assert(trial(569003nat, 293));
    assert(trial(569003nat, 292));
    assert(trial(569003nat, 291));
    assert(trial(569003nat, 290));
    assert(trial(569003nat, 289));
    assert(trial(569003nat, 288));
    assert(trial(569003nat, 287));
    assert(trial(569003nat, 286));
    assert(trial(569003nat, 285));
    assert(trial(569003nat, 284));
    assert(trial(569003nat, 283));
    assert(trial(569003nat, 282));
    assert(trial(569003nat, 281));
    assert(trial(569003nat, 280));
    assert(trial(569003nat, 279));
    assert(trial(569003nat, 278));
    assert(trial(569003nat, 277));
    assert(trial(569003nat, 276));
    assert(trial(569003nat, 275));
    assert(trial(569003nat, 274));
    assert(trial(569003nat, 273));
    assert(trial(569003nat, 272));
    assert(trial(569003nat, 271));
    assert(trial(569003nat, 270));
    assert(trial(569003nat, 269));
    assert(trial(569003nat, 268));
    assert(trial(569003nat, 267));
    assert(trial(569003nat, 266));
    assert(trial(569003nat, 265));
    assert(trial(569003nat, 264));
    assert(trial(569003nat, 263));
    assert(trial(569003nat, 262));
    assert(trial(569003nat, 261));
    assert(trial(569003nat, 260));
    assert(trial(569003nat, 259));
    assert(trial(569003nat, 258));
    assert(trial(569003nat, 257));
    assert(trial(569003nat, 256));
    assert(trial(569003nat, 255));
    assert(trial(569003nat, 254));
    assert(trial(569003nat, 253));
    assert(trial(569003nat, 252));
    assert(trial(569003nat, 251));
    assert(trial(569003nat, 250));
    assert(trial(569003nat, 249));
    assert(trial(569003nat, 248));
    assert(trial(569003nat, 247));
    assert(trial(569003nat, 246));
    assert(trial(569003nat, 245));
    assert(trial(569003nat, 244));
    assert(trial(569003nat, 243));
    assert(trial(569003nat, 242));
    assert(trial(569003nat, 241));
    assert(trial(569003nat, 240));
    assert(trial(569003nat, 239));
    assert(trial(569003nat, 238));
    assert(trial(569003nat, 237));
    assert(trial(569003nat, 236));
    assert(trial(569003nat, 235));
    assert(trial(569003nat, 234));
    assert(trial(569003nat, 233));
    assert(trial(569003nat, 232));
    assert(trial(569003nat, 231));
    assert(trial(569003nat, 230));
    assert(trial(569003nat, 229));
    assert(trial(569003nat, 228));
    assert(trial(569003nat, 227));
    assert(trial(569003nat, 226));
    assert(trial(569003nat, 225));
    assert(trial(569003nat, 224));
    assert(trial(569003nat, 223));
    assert(trial(569003nat, 222));
    assert(trial(569003nat, 221));
    assert(trial(569003nat, 220));
    assert(trial(569003nat, 219));
    assert(trial(569003nat, 218));
    assert(trial(569003nat, 217));
    assert(trial(569003nat, 216));
    assert(trial(569003nat, 215));
    assert(trial(569003nat, 214));
    assert(trial(569003nat, 213));
    assert(trial(569003nat, 212));
    assert(trial(569003nat, 211));
    assert(trial(569003nat, 210));
    assert(trial(569003nat, 209));
    assert(trial(569003nat, 208));
    assert(trial(569003nat, 207));
    assert(trial(569003nat, 206));
    assert(trial(569003nat, 205));
    assert(trial(569003nat, 204));
    assert(trial(569003nat, 203));
    assert(trial(569003nat, 202));
    assert(trial(569003nat, 201));
    assert(trial(569003nat, 200));
    assert(trial(569003nat, 199));
    assert(trial(569003nat, 198));
    assert(trial(569003nat, 197));
    assert(trial(569003nat, 196));
    assert(trial(569003nat, 195));
    assert(trial(569003nat, 194));
    assert(trial(569003nat, 193));
    assert(trial(569003nat, 192));
    assert(trial(569003nat, 191));
    assert(trial(569003nat, 190));
    assert(trial(569003nat, 189));
    assert(trial(569003nat, 188));
    assert(trial(569003nat, 187));
    assert(trial(569003nat, 186));
    assert(trial(569003nat, 185));
    assert(trial(569003nat, 184));
    assert(trial(569003nat, 183));
    assert(trial(569003nat, 182));
    assert(trial(569003nat, 181));
    assert(trial(569003nat, 180));
    assert(trial(569003nat, 179));
    assert(trial(569003nat, 178));
    assert(trial(569003nat, 177));
    assert(trial(569003nat, 176));
    assert(trial(569003nat, 175));
    assert(trial(569003nat, 174));
    assert(trial(569003nat, 173));
    assert(trial(569003nat, 172));
    assert(trial(569003nat, 171));
    assert(trial(569003nat, 170));
    assert(trial(569003nat, 169));
    assert(trial(569003nat, 168));
    assert(trial(569003nat, 167));
    assert(trial(569003nat, 166));
    assert(trial(569003nat, 165));
    assert(trial(569003nat, 164));
    assert(trial(569003nat, 163));
    assert(trial(569003nat, 162));
    assert(trial(569003nat, 161));
    assert(trial(569003nat, 160));
    assert(trial(569003nat, 159));
    assert(trial(569003nat, 158));
    assert(trial(569003nat, 157));
    assert(trial(569003nat, 156));
    assert(trial(569003nat, 155));
    assert(trial(569003nat, 154));
    assert(trial(569003nat, 153));
    assert(trial(569003nat, 152));
    assert(trial(569003nat, 151));
    assert(trial(569003nat, 150));
    assert(trial(569003nat, 149));
    assert(trial(569003nat, 148));
    assert(trial(569003nat, 147));
    assert(trial(569003nat, 146));
    assert(trial(569003nat, 145));
    assert(trial(569003nat, 144));
    assert(trial(569003nat, 143));
    assert(trial(569003nat, 142));
    assert(trial(569003nat, 141));
    assert(trial(569003nat, 140));
    assert(trial(569003nat, 139));
    assert(trial(569003nat, 138));
    assert(trial(569003nat, 137));
    assert(trial(569003nat, 136));
    assert(trial(569003nat, 135));
    assert(trial(569003nat, 134));
    assert(trial(569003nat, 133));
    assert(trial(569003nat, 132));
    assert(trial(569003nat, 131));
    assert(trial(569003nat, 130));
    assert(trial(569003nat, 129));
    assert(trial(569003nat, 128));
    assert(trial(569003nat, 127));
    assert(trial(569003nat, 126));
    assert(trial(569003nat, 125));
    assert(trial(569003nat, 124));
    assert(trial(569003nat, 123));
    assert(trial(569003nat, 122));
    assert(trial(569003nat, 121));
    assert(trial(569003nat, 120));
    assert(trial(569003nat, 119));
    assert(trial(569003nat, 118));
    assert(trial(569003nat, 117));
    assert(trial(569003nat, 116));
    assert(trial(569003nat, 115));
    assert(trial(569003nat, 114));
    assert(trial(569003nat, 113));
    assert(trial(569003nat, 112));
    assert(trial(569003nat, 111));
    assert(trial(569003nat, 110));
    assert(trial(569003nat, 109));
    assert(trial(569003nat, 108));
    assert(trial(569003nat, 107));
    assert(trial(569003nat, 106));
    assert(trial(569003nat, 105));
    assert(trial(569003nat, 104));
    assert(trial(569003nat, 103));
    assert(trial(569003nat, 102));
    assert(trial(569003nat, 101));
    assert(trial(569003nat, 100));
    assert(trial(569003nat, 99));
    assert(trial(569003nat, 98));
    assert(trial(569003nat, 97));
    assert(trial(569003nat, 96));
    assert(trial(569003nat, 95));
    assert(trial(569003nat, 94));
    assert(trial(569003nat, 93));
    assert(trial(569003nat, 92));
    assert(trial(569003nat, 91));
    assert(trial(569003nat, 90));
    assert(trial(569003nat, 89));
    assert(trial(569003nat, 88));
    assert(trial(569003nat, 87));
    assert(trial(569003nat, 86));
    assert(trial(569003nat, 85));
    assert(trial(569003nat, 84));
    assert(trial(569003nat, 83));
    assert(trial(569003nat, 82));
    assert(trial(569003nat, 81));
    assert(trial(569003nat, 80));
    assert(trial(569003nat, 79));
    assert(trial(569003nat, 78));
    assert(trial(569003nat, 77));
    assert(trial(569003nat, 76));
    assert(trial(569003nat, 75));
    assert(trial(569003nat, 74));
    assert(trial(569003nat, 73));
    assert(trial(569003nat, 72));
    assert(trial(569003nat, 71));
    assert(trial(569003nat, 70));
    assert(trial(569003nat, 69));
    assert(trial(569003nat, 68));
    assert(trial(569003nat, 67));
    assert(trial(569003nat, 66));
    assert(trial(569003nat, 65));
    assert(trial(569003nat, 64));
    assert(trial(569003nat, 63));
    assert(trial(569003nat, 62));
    assert(trial(569003nat, 61));
    assert(trial(569003nat, 60));
    assert(trial(569003nat, 59));
    assert(trial(569003nat, 58));
    assert(trial(569003nat, 57));
    assert(trial(569003nat, 56));
    assert(trial(569003nat, 55));
    assert(trial(569003nat, 54));
    assert(trial(569003nat, 53));
    assert(trial(569003nat, 52));
    assert(trial(569003nat, 51));
    assert(trial(569003nat, 50));
    assert(trial(569003nat, 49));
    assert(trial(569003nat, 48));
    assert(trial(569003nat, 47));
    assert(trial(569003nat, 46));
    assert(trial(569003nat, 45));
    assert(trial(569003nat, 44));
    assert(trial(569003nat, 43));
    assert(trial(569003nat, 42));
    assert(trial(569003nat, 41));
    assert(trial(569003nat, 40));
    assert(trial(569003nat, 39));
    assert(trial(569003nat, 38));
    assert(trial(569003nat, 37));
    assert(trial(569003nat, 36));
    assert(trial(569003nat, 35));
    assert(trial(569003nat, 34));
    assert(trial(569003nat, 33));
    assert(trial(569003nat, 32));
    assert(trial(569003nat, 31));
    assert(trial(569003nat, 30));
    assert(trial(569003nat, 29));
    assert(trial(569003nat, 28));
    assert(trial(569003nat, 27));
    assert(trial(569003nat, 26));
    assert(trial(569003nat, 25));
    assert(trial(569003nat, 24));
    assert(trial(569003nat, 23));
    assert(trial(569003nat, 22));
    assert(trial(569003nat, 21));
    assert(trial(569003nat, 20));
    assert(trial(569003nat, 19));
    assert(trial(569003nat, 18));
    assert(trial(569003nat, 17));
    assert(trial(569003nat, 16));
    assert(trial(569003nat, 15));
    assert(trial(569003nat, 14));
    assert(trial(569003nat, 13));
    assert(trial(569003nat, 12));
    assert(trial(569003nat, 11));
    assert(trial(569003nat, 10));
    assert(trial(569003nat, 9));
    assert(trial(569003nat, 8));
    assert(trial(569003nat, 7));
    assert(trial(569003nat, 6));
    assert(trial(569003nat, 5));
    assert(trial(569003nat, 4));
    assert(trial(569003nat, 3));
    assert(trial(569003nat, 2));
    lemma_trial_prime(569003nat);
}

proof fn lemma_pow_p2773320623_7()
    ensures
        pow(2, 2773320622nat) % 2773320623int == 1int,
{
    lemma_pow1(2);
    lemma_small_mod(2, 2773320623nat);
    lemma_powmod_step(2, 2773320623int, 1nat, 2int, 0, 4int);
    lemma_powmod_step(2, 2773320623int, 2nat, 4int, 1, 32int);
    lemma_powmod_step(2, 2773320623int, 5nat, 32int, 0, 1024int);
    lemma_powmod_step(2, 2773320623int, 10nat, 1024int, 0, 1048576int);
    lemma_powmod_step(2, 2773320623int, 20nat, 1048576int, 1, 2553322136int);
    lemma_powmod_step(2, 2773320623int, 41nat, 2553322136int, 0, 46680820int);
    lemma_powmod_step(2, 2773320623int, 82nat, 46680820int, 1, 2205677744int);
    lemma_powmod_step(2, 2773320623int, 165nat, 2205677744int, 0, 1230313146int);
    lemma_powmod_step(2, 2773320623int, 330nat, 1230313146int, 1, 1234410652int);
    lemma_powmod_step(2, 2773320623int, 661nat, 1234410652int, 0, 2173319988int);
    lemma_powmod_step(2, 2773320623int, 1322nat, 2173319988int, 0, 2737149722int);
    lemma_powmod_step(2, 2773320623int, 2644nat, 2737149722int, 1, 1324014380int);
    lemma_powmod_step(2, 2773320623int, 5289nat, 1324014380int, 1, 2559657326int);
    lemma_powmod_step(2, 2773320623int, 10579nat, 2559657326int, 0, 2084743727int);
    lemma_powmod_step(2, 2773320623int, 21158nat, 2084743727int, 1, 1590256479int);
    lemma_powmod_step(2, 2773320623int, 42317nat, 1590256479int, 1, 1724354245int);
    lemma_powmod_step(2, 2773320623int, 84635nat, 1724354245int, 0, 2136906314int);
    lemma_powmod_step(2, 2773320623int, 169270nat, 2136906314int, 0, 1964399087int);
    lemma_powmod_step(2, 2773320623int, 338540nat, 1964399087int, 0, 2250889523int);
    lemma_powmod_step(2, 2773320623int, 677080nat, 2250889523int, 0, 1765055988int);
    lemma_powmod_step(2, 2773320623int, 1354160nat, 1765055988int, 0, 800144210int);
    lemma_powmod_step(2, 2773320623int, 2708320nat, 800144210int, 1, 1989434676int);
    lemma_powmod_step(2, 2773320623int, 5416641nat, 1989434676int, 1, 356790965int);
    lemma_powmod_step(2, 2773320623int, 10833283nat, 356790965int, 1, 2393296885int);
    lemma_powmod_step(2, 2773320623int, 21666567nat, 2393296885int, 0, 1882038871int);
    lemma_powmod_step(2, 2773320623int, 43333134nat, 1882038871int, 1, 1983153577int);
    lemma_powmod_step(2, 2773320623int, 86666269nat, 1983153577int, 0, 1610523775int);
    lemma_powmod_step(2, 2773320623int, 173332538nat, 1610523775int, 1, 473886467int);
    lemma_powmod_step(2, 2773320623int, 346665077nat, 473886467int, 1, 2171797993int);
    lemma_powmod_step(2, 2773320623int, 693330155nat, 2171797993int, 1, 1int);
    lemma_powmod_step(2, 2773320623int, 1386660311nat, 1int, 0, 1int);
}

proof fn lemma_pow_p2773320623_8()
    ensures
        pow(2, 4874nat) % 2773320623int == 2039232613int,
{
    lemma_pow1(2);
    lemma_small_mod(2, 2773320623nat);
    lemma_powmod_step(2, 2773320623int, 1nat, 2int, 0, 4int);
    lemma_powmod_step(2, 2773320623int, 2nat, 4int, 0, 16int);
    lemma_powmod_step(2, 2773320623int, 4nat, 16int, 1, 512int);
    lemma_powmod_step(2, 2773320623int, 9nat, 512int, 1, 524288int);
    lemma_powmod_step(2, 2773320623int, 19nat, 524288int, 0, 319165267int);
    lemma_powmod_step(2, 2773320623int, 38nat, 319165267int, 0, 2254052394int);
    lemma_powmod_step(2, 2773320623int, 76nat, 2254052394int, 0, 1533178889int);
    lemma_powmod_step(2, 2773320623int, 152nat, 1533178889int, 0, 1700641492int);
    lemma_powmod_step(2, 2773320623int, 304nat, 1700641492int, 1, 386856848int);
    lemma_powmod_step(2, 2773320623int, 609nat, 386856848int, 0, 285844700int);
    lemma_powmod_step(2, 2773320623int, 1218nat, 285844700int, 1, 536378702int);
    lemma_powmod_step(2, 2773320623int, 2437nat, 536378702int, 0, 2039232613int);
}

/// 2773320623 is prime: Pocklington's criterion with a = 2 and the prime factor 569003 of n - 1.
proof fn lemma_prime_p2773320623()
    ensures
        is_prime(2773320623nat),
{
    lemma_prime_p569003();
    lemma_pow_p2773320623_7();
    lemma_pow_p2773320623_8();
    assert forall|f: nat| is_prime(f) && 2773320623nat % f == 0 implies #[trigger] ((f - 1) as nat % 569003nat) == 0 by {
        lemma_pocklington_factor(2773320623nat, 2, 569003nat, 4874nat, 2039232613nat, (0int - 332913477int), 244792475int, f);
    }
    lemma_prime_by_factor(2773320623nat, 569003nat);
}

proof fn lemma_pow_p72106336199_9()
    ensures
        pow(2, 72106336198nat) % 72106336199int == 1int,
{
    lemma_pow1(2);
    lemma_small_mod(2, 72106336199nat);
    lemma_powmod_step(2, 72106336199int, 1nat, 2int, 0, 4int);
    lemma_powmod_step(2, 72106336199int, 2nat, 4int, 0, 16int);
    lemma_powmod_step(2, 72106336199int, 4nat, 16int, 0, 256int);
    lemma_powmod_step(2, 72106336199int, 8nat, 256int, 0, 65536int);
    lemma_powmod_step(2, 72106336199int, 16nat, 65536int, 1, 8589934592int);
    lemma_powmod_step(2, 72106336199int, 33nat, 8589934592int, 1, 65958308528int);
    lemma_powmod_step(2, 72106336199int, 67nat, 65958308528int, 0, 56336800666int);
    lemma_powmod_step(2, 72106336199int, 134nat, 56336800666int, 0, 64939114423int);
    lemma_powmod_step(2, 72106336199int, 268nat, 64939114423int, 1, 64260463010int);
    lemma_powmod_step(2, 72106336199int, 537nat, 64260463010int, 0, 30328996505int);
    lemma_powmod_step(2, 72106336199int, 1074nat, 30328996505int, 0, 50442070043int);
    lemma_powmod_step(2, 72106336199int, 2148nat, 50442070043int, 1, 2611319398int);
    lemma_powmod_step(2, 72106336199int, 4297nat, 2611319398int, 1, 12307160634int);
    lemma_powmod_step(2, 72106336199int, 8595nat, 12307160634int, 1, 1209597334int);
    lemma_powmod_step(2, 72106336199int, 17191nat, 1209597334int, 0, 34999362378int);
    lemma_powmod_step(2, 72106336199int, 34382nat, 34999362378int, 1, 11141426736int);
    lemma_powmod_step(2, 72106336199int, 68765nat, 11141426736int, 1, 11116843199int);
    lemma_powmod_step(2, 72106336199int, 137531nat, 11116843199int, 1, 22422254585int);
    lemma_powmod_step(2, 72106336199int, 275063nat, 22422254585int, 1, 48869632286int);
    lemma_powmod_step(2, 72106336199int, 550127nat, 48869632286int, 1, 49991566508int);
    lemma_powmod_step(2, 72106336199int, 1100255nat, 49991566508int, 0, 30324675427int);
    lemma_powmod_step(2, 72106336199int, 2200510nat, 30324675427int, 1, 59200329174int);
    lemma_powmod_step(2, 72106336199int, 4401021nat, 59200329174int, 0, 30980963836int);
    lemma_powmod_step(2, 72106336199int, 8802042nat, 30980963836int, 1, 57412550268int);
    lemma_powmod_step(2, 72106336199int, 17604085nat, 57412550268int, 1, 14028934685int);
    lemma_powmod_step(2, 72106336199int, 35208171nat, 14028934685int, 1, 34813665486int);
    lemma_powmod_step(2, 72106336199int, 70416343nat, 34813665486int, 1, 67841547381int);
    lemma_powmod_step(2, 72106336199int, 140832687nat, 67841547381int, 1, 10616940163int);
    lemma_powmod_step(2, 72106336199int, 281665375nat, 10616940163int, 1, 53218281225int);
    lemma_powmod_step(2, 72106336199int, 563330751nat, 53218281225int, 1, 18835282682int);
    lemma_powmod_step(2, 72106336199int, 1126661503nat, 18835282682int, 0, 9201007100int);
    lemma_powmod_step(2, 72106336199int, 2253323006nat, 9201007100int, 0, 17168826552int);
    lemma_powmod_step(2, 72106336199int, 4506646012nat, 17168826552int, 0, 3936556619int);
    lemma_powmod_step(2, 72106336199int, 9013292024nat, 3936556619int, 1, 53629541242int);
    lemma_powmod_step(2, 72106336199int, 18026584049nat, 53629541242int, 1, 1int);
    lemma_powmod_step(2, 72106336199int, 36053168099nat, 1int, 0, 1int);
}

proof fn lemma_pow_p72106336199_10()
    ensures
        pow(2, 26nat) % 72106336199int == 67108864int,
{
    lemma_pow1(2);
    lemma_small_mod(2, 72106336199nat);
    lemma_powmod_step(2, 72106336199int, 1nat, 2int, 1, 8int);
    lemma_powmod_step(2, 72106336199int, 3nat, 8int, 0, 64int);
    lemma_powmod_step(2, 72106336199int, 6nat, 64int, 1, 8192int);
    lemma_powmod_step(2, 72106336199int, 13nat, 8192int, 0, 67108864int);
}

/// 72106336199 is prime: Pocklington's criterion with a = 2 and the prime factor 2773320623 of n - 1.
proof fn lemma_prime_p72106336199()
    ensures
        is_prime(72106336199nat),
{
    lemma_prime_p2773320623();
    lemma_pow_p72106336199_9();
    lemma_pow_p72106336199_10();
    assert forall|f: nat| is_prime(f) && 72106336199nat % f == 0 implies #[trigger] ((f - 1) as nat % 2773320623nat) == 0 by {
        lemma_pocklington_factor(72106336199nat, 2, 2773320623nat, 26nat, 67108864nat, 8149528284int, (0int - 7584709int), f);
    }
    lemma_prime_by_factor(72106336199nat, 2773320623nat);
}

proof fn lemma_pow_p75445702479781427272750846543864801_11()
    ensures
        pow(2, 75445702479781427272750846543864800nat) % 75445702479781427272750846543864801int == 1int,
{
    lemma_pow1(2);
    lemma_small_mod(2, 75445702479781427272750846543864801nat);
    lemma_powmod_step(2, 75445702479781427272750846543864801int, 1nat, 2int, 1, 8int);
    lemma_powmod_step(2, 75445702479781427272750846543864801int, 3nat, 8int, 1, 128int);
    lemma_powmod_step(2, 75445702479781427272750846543864801int, 7nat, 128int, 0, 16384int);
    lemma_powmod_step(2, 75445702479781427272750846543864801int, 14nat, 16384int, 1, 536870912int);
    lemma_powmod_step(2, 75445702479781427272750846543864801int, 29nat, 536870912int, 0, 288230376151711744int);
    lemma_powmod_step(2, 75445702479781427272750846543864801int, 58nat, 288230376151711744int, 0, 7631047256775814783737094723656735int);
    lemma_powmod_step(2, 75445702479781427272750846543864801int, 116nat, 7631047256775814783737094723656735int, 0, 22009193676612644322150778486101566int);
    lemma_powmod_step(2, 75445702479781427272750846543864801int, 232nat, 22009193676612644322150778486101566int, 0, 33022602890864803253515466140928347int);
    lemma_powmod_step(2, 75445702479781427272750846543864801int, 464nat, 33022602890864803253515466140928347int, 1, 70920670989751728757172309344426114int);
    lemma_powmod_step(2, 75445702479781427272750846543864801int, 929nat, 70920670989751728757172309344426114int, 1, 3666131857123157179898322131674216int);
    lemma_powmod_step(2, 75445702479781427272750846543864801int, 1859nat, 3666131857123157179898322131674216int, 1, 25401643620139515029795923209865324int);
    lemma_powmod_step(2, 75445702479781427272750846543864801int, 3719nat, 25401643620139515029795923209865324int, 1, 53020601934196140453117330471626264int);
    lemma_powmod_step(2, 75445702479781427272750846543864801int, 7439nat, 53020601934196140453117330471626264int, 1, 28575338561705314560517295720499607int);
    lemma_powmod_step(2, 75445702479781427272750846543864801int, 14879nat, 28575338561705314560517295720499607int, 0, 48331021020716018721794112955412492int);
    lemma_powmod_step(2, 75445702479781427272750846543864801int, 29758nat, 48331021020716018721794112955412492int, 0, 848533773164639574462622689008749int);
    lemma_powmod_step(2, 75445702479781427272750846543864801int, 59516nat, 848533773164639574462622689008749int, 0, 45310555848504975522005669435514283int);
    lemma_powmod_step(2, 75445702479781427272750846543864801int, 119032nat, 45310555848504975522005669435514283int, 0, 72659396762334320014469372026007980int);
    lemma_powmod_step(2, 75445702479781427272750846543864801int, 238064nat, 72659396762334320014469372026007980int, 1, 75115654692204849562303423817422908int);
    lemma_powmod_step(2, 75445702479781427272750846543864801int, 476129nat, 75115654692204849562303423817422908int, 0, 16253006180525765547641381402891919int);
    lemma_powmod_step(2, 75445702479781427272750846543864801int, 952258nat, 16253006180525765547641381402891919int, 1, 17986039111192952197589181705378570int);
    lemma_powmod_step(2, 75445702479781427272750846543864801int, 1904517nat, 17986039111192952197589181705378570int, 0, 27776406887544879715908757031455140int);
    lemma_powmod_step(2, 75445702479781427272750846543864801int, 3809034nat, 27776406887544879715908757031455140int, 1, 8878805395285718583017608002921474int);
    lemma_powmod_step(2, 75445702479781427272750846543864801int, 7618069nat, 8878805395285718583017608002921474int, 0, 15425342777689016851465101770788425int);
    lemma_powmod_step(2, 75445702479781427272750846543864801int, 15236138nat, 15425342777689016851465101770788425int, 0, 67408165950774277419106926032106373int);
    lemma_powmod_step(2, 75445702479781427272750846543864801int, 30472276nat, 67408165950774277419106926032106373int, 1, 10005173418326397981809162040109511int);
    lemma_powmod_step(2, 75445702479781427272750846543864801int, 60944553nat, 10005173418326397981809162040109511int, 0, 11328494954179109637847746107809659int);
    lemma_powmod_step(2, 75445702479781427272750846543864801int, 121889106nat, 11328494954179109637847746107809659int, 0, 2653889685712704246275783694347970int);
    lemma_powmod_step(2, 75445702479781427272750846543864801int, 243778212nat, 2653889685712704246275783694347970int, 0, 8917658717885293657369277093140981int);
    lemma_powmod_step(2, 75445702479781427272750846543864801int, 487556424nat, 8917658717885293657369277093140981int, 1, 72164657861411213226753396050351209int);
    lemma_powmod_step(2, 75445702479781427272750846543864801int, 975112849nat, 72164657861411213226753396050351209int, 1, 72558332017281532167041635227551361int);
    lemma_powmod_step(2, 75445702479781427272750846543864801int, 1950225699nat, 72558332017281532167041635227551361int, 1, 45958847638036517107644543883702569int);
    lemma_powmod_step(2, 75445702479781427272750846543864801int, 3900451399nat, 45958847638036517107644543883702569int, 0, 671042825854817169564334903710094int);
    lemma_powmod_step(2, 75445702479781427272750846543864801int, 7800902798nat, 671042825854817169564334903710094int, 1, 72730494059566331181901874714725714int);
    lemma_powmod_step(2, 75445702479781427272750846543864801int, 15601805597nat, 72730494059566331181901874714725714int, 1, 62579464969018112921471466292003721int);
    lemma_powmod_step(2, 75445702479781427272750846543864801int, 31203611195nat, 62579464969018112921471466292003721int, 1, 29585290492468826343356455945677091int);
    lemma_powmod_step(2, 75445702479781427272750846543864801int, 62407222391nat, 29585290492468826343356455945677091int, 1, 73885246701094968368169048238205305int);
    lemma_powmod_step(2, 75445702479781427272750846543864801int, 124814444783nat, 73885246701094968368169048238205305int, 0, 41118096192318202911291004101212089int);
    lemma_powmod_step(2, 75445702479781427272750846543864801int, 249628889566nat, 41118096192318202911291004101212089int, 1, 33981126060794659516081780212042900int);
    lemma_powmod_step(2, 75445702479781427272750846543864801int, 499257779133nat, 33981126060794659516081780212042900int, 1, 40288467135992077388000188531248827int);
    lemma_powmod_step(2, 75445702479781427272750846543864801int, 998515558267nat, 40288467135992077388000188531248827int, 1, 36330444707391624204415264033831489int);
    lemma_powmod_step(2, 75445702479781427272750846543864801int, 1997031116535nat, 36330444707391624204415264033831489int, 0, 17328165532291647471499732182069987int);
    lemma_powmod_step(2, 75445702479781427272750846543864801int, 3994062233070nat, 17328165532291647471499732182069987int, 0, 33422583774579774592479576262258731int);
    lemma_powmod_step(2, 75445702479781427272750846543864801int, 7988124466140nat, 33422583774579774592479576262258731int, 0, 18214631634308223648371789179753065int);
    lemma_powmod_step(2, 75445702479781427272750846543864801int, 15976248932280nat, 18214631634308223648371789179753065int, 0, 64511884726821717771000457030424188int);
    lemma_powmod_step(2, 75445702479781427272750846543864801int, 31952497864560nat, 64511884726821717771000457030424188int, 0, 1568420735889759100484093464052164int);
    lemma_powmod_step(2, 75445702479781427272750846543864801int, 63904995729120nat, 1568420735889759100484093464052164int, 0, 31025647283008206690781557961567687int);
    lemma_powmod_step(2, 75445702479781427272750846543864801int, 127809991458240nat, 31025647283008206690781557961567687int, 1, 373269120475705429462412059850169int);
    lemma_powmod_step(2, 75445702479781427272750846543864801int, 255619982916481nat, 373269120475705429462412059850169int, 0, 58443280288287018208066001403042123int);
    lemma_powmod_step(2, 75445702479781427272750846543864801int, 511239965832962nat, 58443280288287018208066001403042123int, 1, 39403710217996611059649496120899206int);
    lemma_powmod_step(2, 75445702479781427272750846543864801int, 1022479931665925nat, 39403710217996611059649496120899206int, 0, 18955090873233773816598658194112567int);
    lemma_powmod_step(2, 75445702479781427272750846543864801int, 2044959863331850nat, 18955090873233773816598658194112567int, 1, 42633892693946410887213151918705356int);
    lemma_powmod_step(2, 75445702479781427272750846543864801int, 4089919726663701nat, 42633892693946410887213151918705356int, 1, 50883925065132556536787338661609171int);
    lemma_powmod_step(2, 75445702479781427272750846543864801int, 8179839453327403nat, 50883925065132556536787338661609171int, 0, 60096831411452045530469413933371307int);
    lemma_powmod_step(2, 75445702479781427272750846543864801int, 16359678906654806nat, 60096831411452045530469413933371307int, 1, 53089291438676901358685779159701001int);
    lemma_powmod_step(2, 75445702479781427272750846543864801int, 32719357813309613nat, 53089291438676901358685779159701001int, 0, 51886847680512235165321472581505203int);
    lemma_powmod_step(2, 75445702479781427272750846543864801int, 65438715626619226nat, 51886847680512235165321472581505203int, 0, 49840655314755229486864938926674397int);
    lemma_powmod_step(2, 75445702479781427272750846543864801int, 130877431253238452nat, 49840655314755229486864938926674397int, 0, 45520326194272497356190822741453152int);
    lemma_powmod_step(2, 75445702479781427272750846543864801int, 261754862506476904nat, 45520326194272497356190822741453152int, 0, 12912471922656530731785220892871751int);
    lemma_powmod_step(2, 75445702479781427272750846543864801int, 523509725012953808nat, 12912471922656530731785220892871751int, 1, 54300938652674903527848974066959466int);
    lemma_powmod_step(2, 75445702479781427272750846543864801int, 1047019450025907617nat, 54300938652674903527848974066959466int, 0, 42251550788399836408018112961724327int);
    lemma_powmod_step(2, 75445702479781427272750846543864801int, 2094038900051815234nat, 42251550788399836408018112961724327int, 1, 63923979436728860874743583272019769int);
    lemma_powmod_step(2, 75445702479781427272750846543864801int, 4188077800103630469nat, 63923979436728860874743583272019769int, 1, 47120619430889036148662387133918260int);
    lemma_powmod_step(2, 75445702479781427272750846543864801int, 8376155600207260939nat, 47120619430889036148662387133918260int, 1, 23801074297811254038167421302095268int);
    lemma_powmod_step(2, 75445702479781427272750846543864801int, 16752311200414521879nat, 23801074297811254038167421302095268int, 1, 39222906842721171021682631194850055int);
    lemma_powmod_step(2, 75445702479781427272750846543864801int, 33504622400829043759nat, 39222906842721171021682631194850055int, 0, 27744432708764247686018176453778611int);
    lemma_powmod_step(2, 75445702479781427272750846543864801int, 67009244801658087518nat, 27744432708764247686018176453778611int, 0, 31767803252733235124306576616240819int);
    lemma_powmod_step(2, 75445702479781427272750846543864801int, 134018489603316175036nat, 31767803252733235124306576616240819int, 1, 74062341163093794085330143583279663int);
    lemma_powmod_step(2, 75445702479781427272750846543864801int, 268036979206632350073nat, 74062341163093794085330143583279663int, 0, 4776198761470204658446448715125701int);
    lemma_powmod_step(2, 75445702479781427272750846543864801int, 536073958413264700146nat, 4776198761470204658446448715125701int, 0, 18710024028905304295913796078205516int);
    lemma_powmod_step(2, 75445702479781427272750846543864801int, 1072147916826529400292nat, 18710024028905304295913796078205516int, 1, 10169410796074325407272506376376684int);
    lemma_powmod_step(2, 75445702479781427272750846543864801int, 2144295833653058800585nat, 10169410796074325407272506376376684int, 1, 42122498252050953737874994404293356int);
    lemma_powmod_step(2, 75445702479781427272750846543864801int, 4288591667306117601171nat, 42122498252050953737874994404293356int, 0, 115754809044341432461161369761019int);
    lemma_powmod_step(2, 75445702479781427272750846543864801int, 8577183334612235202342nat, 115754809044341432461161369761019int, 1, 43065186470477596355140615720135622int);
    lemma_powmod_step(2, 75445702479781427272750846543864801int, 17154366669224470404685nat, 43065186470477596355140615720135622int, 1, 38510769545584726525888116656157065int);
    lemma_powmod_step(2, 75445702479781427272750846543864801int, 34308733338448940809371nat, 38510769545584726525888116656157065int, 1, 59466506355214148198268088155650432int);
    lemma_powmod_step(2, 75445702479781427272750846543864801int, 68617466676897881618743nat, 59466506355214148198268088155650432int, 1, 31186897834198124570994992750338016int);
    lemma_powmod_step(2, 75445702479781427272750846543864801int, 137234933353795763237487nat, 31186897834198124570994992750338016int, 0, 23092477347457125080713115068311749int);
    lemma_powmod_step(2, 75445702479781427272750846543864801int, 274469866707591526474974nat, 23092477347457125080713115068311749int, 0, 18698798374500036049255497881260209int);
    lemma_powmod_step(2, 75445702479781427272750846543864801int, 548939733415183052949948nat, 18698798374500036049255497881260209int, 0, 21869121206656224245178971064539530int);
    lemma_powmod_step(2, 75445702479781427272750846543864801int, 1097879466830366105899896nat, 21869121206656224245178971064539530int, 0, 12652077428391528779183729931260781int);
    lemma_powmod_step(2, 75445702479781427272750846543864801int, 2195758933660732211799792nat, 12652077428391528779183729931260781int, 1, 28598385840957074477577761062398116int);
    lemma_powmod_step(2, 75445702479781427272750846543864801int, 4391517867321464423599585nat, 28598385840957074477577761062398116int, 1, 71375989008579367626260943189535560int);
    lemma_powmod_step(2, 75445702479781427272750846543864801int, 8783035734642928847199171nat, 71375989008579367626260943189535560int, 1, 43061262500733731668528957050653492int);
    lemma_powmod_step(2, 75445702479781427272750846543864801int, 17566071469285857694398343nat, 43061262500733731668528957050653492int, 0, 32672444468793351880644993920963366int);
    lemma_powmod_step(2, 75445702479781427272750846543864801int, 35132142938571715388796686nat, 32672444468793351880644993920963366int, 0, 70209680790526841665283081887039825int);
    lemma_powmod_step(2, 75445702479781427272750846543864801int, 70264285877143430777593372nat, 70209680790526841665283081887039825int, 1, 52503834489303885292749499281376455int);
    lemma_powmod_step(2, 75445702479781427272750846543864801int, 140528571754286861555186745nat, 52503834489303885292749499281376455int, 1, 17400049045635351684533718020641136int);
    lemma_powmod_step(2, 75445702479781427272750846543864801int, 281057143508573723110373491nat, 17400049045635351684533718020641136int, 1, 64908780416863095875975808887427271int);
    lemma_powmod_step(2, 75445702479781427272750846543864801int, 562114287017147446220746983nat, 64908780416863095875975808887427271int, 0, 69878509489605860253502975384379412int);
    lemma_powmod_step(2, 75445702479781427272750846543864801int, 1124228574034294892441493966nat, 69878509489605860253502975384379412int, 0, 42111761612063696322752344005589253int);
    lemma_powmod_step(2, 75445702479781427272750846543864801int, 2248457148068589784882987932nat, 42111761612063696322752344005589253int, 1, 49087257122501680141152876489827804int);
    lemma_powmod_step(2, 75445702479781427272750846543864801int, 4496914296137179569765975865nat, 49087257122501680141152876489827804int, 0, 60893762817002960278746117535595142int);
    lemma_powmod_step(2, 75445702479781427272750846543864801int, 8993828592274359139531951730nat, 60893762817002960278746117535595142int, 1, 43505566370828698512508536837366946int);
    lemma_powmod_step(2, 75445702479781427272750846543864801int, 17987657184548718279063903461nat, 43505566370828698512508536837366946int, 0, 67404298166118396548341553467469272int);
    lemma_powmod_step(2, 75445702479781427272750846543864801int, 35975314369097436558127806922nat, 67404298166118396548341553467469272int, 1, 23086303469702392307886813367002322int);
    lemma_powmod_step(2, 75445702479781427272750846543864801int, 71950628738194873116255613845nat, 23086303469702392307886813367002322int, 1, 69745012537714770577004439339093758int);
    lemma_powmod_step(2, 75445702479781427272750846543864801int, 143901257476389746232511227691nat, 69745012537714770577004439339093758int, 0, 47172212163931318384902249787988432int);
    lemma_powmod_step(2, 75445702479781427272750846543864801int, 287802514952779492465022455382nat, 47172212163931318384902249787988432int, 1, 16904542676557169922233050131852248int);
    lemma_powmod_step(2, 75445702479781427272750846543864801int, 575605029905558984930044910765nat, 16904542676557169922233050131852248int, 1, 46920499357148902318201176553326160int);
    lemma_powmod_step(2, 75445702479781427272750846543864801int, 1151210059811117969860089821531nat, 46920499357148902318201176553326160int, 0, 10454444063557555172302156146983537int);
    lemma_powmod_step(2, 75445702479781427272750846543864801int, 2302420119622235939720179643062nat, 10454444063557555172302156146983537int, 0, 37698059884210767352741902333811199int);
    lemma_powmod_step(2, 75445702479781427272750846543864801int, 4604840239244471879440359286124nat, 37698059884210767352741902333811199int, 1, 40901371546101489892846476765501816int);
    lemma_powmod_step(2, 75445702479781427272750846543864801int, 9209680478488943758880718572249nat, 40901371546101489892846476765501816int, 0, 27768446176039279899917307143421335int);
    lemma_powmod_step(2, 75445702479781427272750846543864801int, 18419360956977887517761437144498nat, 27768446176039279899917307143421335int, 0, 21857673977610154683191029340912880int);
    lemma_powmod_step(2, 75445702479781427272750846543864801int, 36838721913955775035522874288996nat, 21857673977610154683191029340912880int, 0, 3778066346658827974554880652278435int);
    lemma_powmod_step(2, 75445702479781427272750846543864801int, 73677443827911550071045748577992nat, 3778066346658827974554880652278435int, 1, 47402446319426680179615426392041982int);
    lemma_powmod_step(2, 75445702479781427272750846543864801int, 147354887655823100142091497155985nat, 47402446319426680179615426392041982int, 1, 50973463510006534321207876498244227int);
    lemma_powmod_step(2, 75445702479781427272750846543864801int, 294709775311646200284182994311971nat, 50973463510006534321207876498244227int, 1, 10766594200423649952741019267106785int);
    lemma_powmod_step(2, 75445702479781427272750846543864801int, 589419550623292400568365988623943nat, 10766594200423649952741019267106785int, 1, 66188423355148447244671870825594569int);
    lemma_powmod_step(2, 75445702479781427272750846543864801int, 1178839101246584801136731977247887nat, 66188423355148447244671870825594569int, 1, 47449036182200125127963758294733383int);
    lemma_powmod_step(2, 75445702479781427272750846543864801int, 2357678202493169602273463954495775nat, 47449036182200125127963758294733383int, 0, 68050878837970674823646249073223134int);
    lemma_powmod_step(2, 75445702479781427272750846543864801int, 4715356404986339204546927908991550nat, 68050878837970674823646249073223134int, 0, 75445702479781427272750846543864800int);
    lemma_powmod_step(2, 75445702479781427272750846543864801int, 9430712809972678409093855817983100nat, 75445702479781427272750846543864800int, 0, 1int);
    lemma_powmod_step(2, 75445702479781427272750846543864801int, 18861425619945356818187711635966200nat, 1int, 0, 1int);
    lemma_powmod_step(2, 75445702479781427272750846543864801int, 37722851239890713636375423271932400nat, 1int, 0, 1int);
}

proof fn lemma_pow_p75445702479781427272750846543864801_12()
    ensures
        pow(2, 39304471641247389600nat) % 75445702479781427272750846543864801int == 56747016255153332959347766392083459int,
{
    lemma_pow1(2);
    lemma_small_mod(2, 75445702479781427272750846543864801nat);
    lemma_powmod_step(2, 75445702479781427272750846543864801int, 1nat, 2int, 0, 4int);
    lemma_powmod_step(2, 75445702479781427272750846543864801int, 2nat, 4int, 0, 16int);
    lemma_powmod_step(2, 75445702479781427272750846543864801int, 4nat, 16int, 0, 256int);
    lemma_powmod_step(2, 75445702479781427272750846543864801int, 8nat, 256int, 1, 131072int);
    lemma_powmod_step(2, 75445702479781427272750846543864801int, 17nat, 131072int, 0, 17179869184int);
    lemma_powmod_step(2, 75445702479781427272750846543864801int, 34nat, 17179869184int, 0, 295147905179352825856int);
    lemma_powmod_step(2, 75445702479781427272750846543864801int, 68nat, 295147905179352825856int, 0, 37249017818367551225803357327630101int);
    lemma_powmod_step(2, 75445702479781427272750846543864801int, 136nat, 37249017818367551225803357327630101int, 0, 102469992448int);
    lemma_powmod_step(2, 75445702479781427272750846543864801int, 272nat, 102469992448int, 1, 21000198704586354065408int);
    lemma_powmod_step(2, 75445702479781427272750846543864801int, 545nat, 21000198704586354065408int, 0, 57540172156127493524011025089846892int);
    lemma_powmod_step(2, 75445702479781427272750846543864801int, 1090nat, 57540172156127493524011025089846892int, 1, 54651969301387637110966512518401958int);
    lemma_powmod_step(2, 75445702479781427272750846543864801int, 2181nat, 54651969301387637110966512518401958int, 1, 61606591580989321780200720816865501int);
    lemma_powmod_step(2, 75445702479781427272750846543864801int, 4363nat, 61606591580989321780200720816865501int, 1, 51294626676562810936092654843532318int);
    lemma_powmod_step(2, 75445702479781427272750846543864801int, 8727nat, 51294626676562810936092654843532318int, 0, 70907221727050507061373817639835259int);
    lemma_powmod_step(2, 75445702479781427272750846543864801int, 17454nat, 70907221727050507061373817639835259int, 1, 32799974849867834837920162526425488int);
    lemma_powmod_step(2, 75445702479781427272750846543864801int, 34909nat, 32799974849867834837920162526425488int, 0, 38671091502185017926787332828197155int);
    lemma_powmod_step(2, 75445702479781427272750846543864801int, 69818nat, 38671091502185017926787332828197155int, 1, 64134687226725695320034102205120082int);
    lemma_powmod_step(2, 75445702479781427272750846543864801int, 139637nat, 64134687226725695320034102205120082int, 1, 49129946330668696747602969976096989int);
    lemma_powmod_step(2, 75445702479781427272750846543864801int, 279275nat, 49129946330668696747602969976096989int, 0, 52731668160668534429276816145493709int);
    lemma_powmod_step(2, 75445702479781427272750846543864801int, 558550nat, 52731668160668534429276816145493709int, 0, 53232007837694667884745803777171609int);
    lemma_powmod_step(2, 75445702479781427272750846543864801int, 1117100nat, 53232007837694667884745803777171609int, 0, 6815899006979597721589967479114253int);
    lemma_powmod_step(2, 75445702479781427272750846543864801int, 2234200nat, 6815899006979597721589967479114253int, 1, 27351563169514572318976779253005245int);
    lemma_powmod_step(2, 75445702479781427272750846543864801int, 4468401nat, 27351563169514572318976779253005245int, 0, 36418643877802785581023883602796239int);
    lemma_powmod_step(2, 75445702479781427272750846543864801int, 8936802nat, 36418643877802785581023883602796239int, 0, 25515915370493845880933608929334539int);
    lemma_powmod_step(2, 75445702479781427272750846543864801int, 17873604nat, 25515915370493845880933608929334539int, 0, 57793553327652931187992881475744335int);
    lemma_powmod_step(2, 75445702479781427272750846543864801int, 35747208nat, 57793553327652931187992881475744335int, 1, 62153849922490962393205786330105307int);
    lemma_powmod_step(2, 75445702479781427272750846543864801int, 71494417nat, 62153849922490962393205786330105307int, 0, 61109090482572984699313167350717626int);
    lemma_powmod_step(2, 75445702479781427272750846543864801int, 142988834nat, 61109090482572984699313167350717626int, 1, 74425325943528844932868703682001460int);
    lemma_powmod_step(2, 75445702479781427272750846543864801int, 285977669nat, 74425325943528844932868703682001460int, 1, 12989690226474060391927371730921649int);
    lemma_powmod_step(2, 75445702479781427272750846543864801int, 571955339nat, 12989690226474060391927371730921649int, 0, 9010903371459702397200566003040269int);
    lemma_powmod_step(2, 75445702479781427272750846543864801int, 1143910678nat, 9010903371459702397200566003040269int, 1, 41483535797710063532135253890982379int);
    lemma_powmod_step(2, 75445702479781427272750846543864801int, 2287821357nat, 41483535797710063532135253890982379int, 1, 36992927490348523016874968511124417int);
    lemma_powmod_step(2, 75445702479781427272750846543864801int, 4575642715nat, 36992927490348523016874968511124417int, 0, 513309348704093895960925166856925int);
    lemma_powmod_step(2, 75445702479781427272750846543864801int, 9151285430nat, 513309348704093895960925166856925int, 1, 25107384053856714034524019378123672int);
    lemma_powmod_step(2, 75445702479781427272750846543864801int, 18302570861nat, 25107384053856714034524019378123672int, 0, 48786791113838861753548469283555870int);
    lemma_powmod_step(2, 75445702479781427272750846543864801int, 36605141722nat, 48786791113838861753548469283555870int, 1, 23550372780047042618185787221846886int);
    lemma_powmod_step(2, 75445702479781427272750846543864801int, 73210283445nat, 23550372780047042618185787221846886int, 1, 34192708828629508492652582794096709int);
    lemma_powmod_step(2, 75445702479781427272750846543864801int, 146420566891nat, 34192708828629508492652582794096709int, 0, 23725588849222751655399262015150642int);
    lemma_powmod_step(2, 75445702479781427272750846543864801int, 292841133782nat, 23725588849222751655399262015150642int, 1, 74284037970676428699992465145163071int);
    lemma_powmod_step(2, 75445702479781427272750846543864801int, 585682267565nat, 74284037970676428699992465145163071int, 0, 1679490236568257179254066873467892int);
    lemma_powmod_step(2, 75445702479781427272750846543864801int, 1171364535130nat, 1679490236568257179254066873467892int, 0, 57875049575816904056842656006512377int);
    lemma_powmod_step(2, 75445702479781427272750846543864801int, 2342729070260nat, 57875049575816904056842656006512377int, 1, 69140185463195222053869748749479920int);
    lemma_powmod_step(2, 75445702479781427272750846543864801int, 4685458140521nat, 69140185463195222053869748749479920int, 1, 12685289843374237635476675559532455int);
    lemma_powmod_step(2, 75445702479781427272750846543864801int, 9370916281043nat, 12685289843374237635476675559532455int, 1, 13171760403748371563029534295641160int);
    lemma_powmod_step(2, 75445702479781427272750846543864801int, 18741832562087nat, 13171760403748371563029534295641160int, 1, 38784832849308944787944580903906813int);
    lemma_powmod_step(2, 75445702479781427272750846543864801int, 37483665124175nat, 38784832849308944787944580903906813int, 0, 3782964574628778339320135515987822int);
    lemma_powmod_step(2, 75445702479781427272750846543864801int, 74967330248350nat, 3782964574628778339320135515987822int, 1, 38877602689008559621761620122014640int);
    lemma_powmod_step(2, 75445702479781427272750846543864801int, 149934660496701nat, 38877602689008559621761620122014640int, 1, 14314454708794176124149993472713247int);
    lemma_powmod_step(2, 75445702479781427272750846543864801int, 299869320993403nat, 14314454708794176124149993472713247int, 1, 72466306610823254233320016583786269int);
    lemma_powmod_step(2, 75445702479781427272750846543864801int, 599738641986807nat, 72466306610823254233320016583786269int, 0, 52923723913192322483970867785578285int);
    lemma_powmod_step(2, 75445702479781427272750846543864801int, 1199477283973614nat, 52923723913192322483970867785578285int, 0, 43675134191290428119386496951976659int);
    lemma_powmod_step(2, 75445702479781427272750846543864801int, 2398954567947228nat, 43675134191290428119386496951976659int, 0, 11400356044965588482423009162079193int);
    lemma_powmod_step(2, 75445702479781427272750846543864801int, 4797909135894456nat, 11400356044965588482423009162079193int, 1, 18935679146042012693248632693634471int);
    lemma_powmod_step(2, 75445702479781427272750846543864801int, 9595818271788913nat, 18935679146042012693248632693634471int, 0, 60679732404325505920101321558000681int);
    lemma_powmod_step(2, 75445702479781427272750846543864801int, 19191636543577826nat, 60679732404325505920101321558000681int, 1, 41712449112149596090570426404649850int);
    lemma_powmod_step(2, 75445702479781427272750846543864801int, 38383273087155653nat, 41712449112149596090570426404649850int, 1, 6531672565481006475695702252069745int);
    lemma_powmod_step(2, 75445702479781427272750846543864801int, 76766546174311307nat, 6531672565481006475695702252069745int, 1, 13823227504923762148479631860009137int);
    lemma_powmod_step(2, 75445702479781427272750846543864801int, 153533092348622615nat, 13823227504923762148479631860009137int, 1, 72088510220800202732826346861527646int);
    lemma_powmod_step(2, 75445702479781427272750846543864801int, 307066184697245231nat, 72088510220800202732826346861527646int, 0, 1888738652562569663194994370406907int);
    lemma_powmod_step(2, 75445702479781427272750846543864801int, 614132369394490462nat, 1888738652562569663194994370406907int, 1, 67921444504051573029934253803837058int);
    lemma_powmod_step(2, 75445702479781427272750846543864801int, 1228264738788980925nat, 67921444504051573029934253803837058int, 0, 44692679468887818587537417286939922int);
    lemma_powmod_step(2, 75445702479781427272750846543864801int, 2456529477577961850nat, 44692679468887818587537417286939922int, 0, 25373835843271755692855209936742124int);
    lemma_powmod_step(2, 75445702479781427272750846543864801int, 4913058955155923700nat, 25373835843271755692855209936742124int, 0, 65810772782638593774538249456932274int);
    lemma_powmod_step(2, 75445702479781427272750846543864801int, 9826117910311847400nat, 65810772782638593774538249456932274int, 0, 2709456275567807824939095492976299int);
    lemma_powmod_step(2, 75445702479781427272750846543864801int, 19652235820623694800nat, 2709456275567807824939095492976299int, 0, 56747016255153332959347766392083459int);
}

proof fn lemma_pow_p75445702479781427272750846543864801_13()
    ensures
        pow(2, 1046311689884858398375200nat) % 75445702479781427272750846543864801int == 71619851993489548214160924360205394int,
{
    lemma_pow1(2);
    lemma_small_mod(2, 75445702479781427272750846543864801nat);
    lemma_powmod_step(2, 75445702479781427272750846543864801int, 1nat, 2int, 1, 8int);
    lemma_powmod_step(2, 75445702479781427272750846543864801int, 3nat, 8int, 0, 64int);
    lemma_powmod_step(2, 75445702479781427272750846543864801int, 6nat, 64int, 1, 8192int);
    lemma_powmod_step(2, 75445702479781427272750846543864801int, 13nat, 8192int, 1, 134217728int);
    lemma_powmod_step(2, 75445702479781427272750846543864801int, 27nat, 134217728int, 1, 36028797018963968int);
    lemma_powmod_step(2, 75445702479781427272750846543864801int, 55nat, 36028797018963968int, 0, 1298074214633706907132624082305024int);
    lemma_powmod_step(2, 75445702479781427272750846543864801int, 110nat, 1298074214633706907132624082305024int, 1, 18945849740373176885994182569351860int);
    lemma_powmod_step(2, 75445702479781427272750846543864801int, 221nat, 18945849740373176885994182569351860int, 1, 35174267790444862888561132888478615int);
    lemma_powmod_step(2, 75445702479781427272750846543864801int, 443nat, 35174267790444862888561132888478615int, 0, 852709155732988206381590479615443int);
    lemma_powmod_step(2, 75445702479781427272750846543864801int, 886nat, 852709155732988206381590479615443int, 0, 59644466011146709757737371221669344int);
    lemma_powmod_step(2, 75445702479781427272750846543864801int, 1772nat, 59644466011146709757737371221669344int, 1, 71398807172283815870711609670842576int);
    lemma_powmod_step(2, 75445702479781427272750846543864801int, 3545nat, 71398807172283815870711609670842576int, 0, 56143571204456704410311860658899759int);
    lemma_powmod_step(2, 75445702479781427272750846543864801int, 7090nat, 56143571204456704410311860658899759int, 0, 44025236727901084080438618136431922int);
    lemma_powmod_step(2, 75445702479781427272750846543864801int, 14180nat, 44025236727901084080438618136431922int, 0, 23262642768922920307643727279927864int);
    lemma_powmod_step(2, 75445702479781427272750846543864801int, 28360nat, 23262642768922920307643727279927864int, 0, 75366276882256799653077842010411347int);
    lemma_powmod_step(2, 75445702479781427272750846543864801int, 56720nat, 75366276882256799653077842010411347int, 1, 61587216817563693039822783993942038int);
    lemma_powmod_step(2, 75445702479781427272750846543864801int, 113441nat, 61587216817563693039822783993942038int, 0, 19406592731618551445728396990971577int);
    lemma_powmod_step(2, 75445702479781427272750846543864801int, 226882nat, 19406592731618551445728396990971577int, 1, 34183862630530025763128452541202462int);
    lemma_powmod_step(2, 75445702479781427272750846543864801int, 453765nat, 34183862630530025763128452541202462int, 0, 55979202244163397260844013346913113int);
    lemma_powmod_step(2, 75445702479781427272750846543864801int, 907530nat, 55979202244163397260844013346913113int, 1, 73161440958009031984643720628689501int);
    lemma_powmod_step(2, 75445702479781427272750846543864801int, 1815061nat, 73161440958009031984643720628689501int, 0, 40411865777412442940929031314834149int);
    lemma_powmod_step(2, 75445702479781427272750846543864801int, 3630122nat, 40411865777412442940929031314834149int, 1, 61823816608461112047218961879667895int);
    lemma_powmod_step(2, 75445702479781427272750846543864801int, 7260245nat, 61823816608461112047218961879667895int, 1, 34760369849629135448465628652287317int);
    lemma_powmod_step(2, 75445702479781427272750846543864801int, 14520491nat, 34760369849629135448465628652287317int, 1, 40766637153727290653602875323485281int);
    lemma_powmod_step(2, 75445702479781427272750846543864801int, 29040983nat, 40766637153727290653602875323485281int, 0, 16781711301517776791640142584649171int);
    lemma_powmod_step(2, 75445702479781427272750846543864801int, 58081966nat, 16781711301517776791640142584649171int, 0, 45359179436666607275040542913155472int);
    lemma_powmod_step(2, 75445702479781427272750846543864801int, 116163932nat, 45359179436666607275040542913155472int, 1, 15936658254533981979046899850802095int);
    lemma_powmod_step(2, 75445702479781427272750846543864801int, 232327865nat, 15936658254533981979046899850802095int, 1, 67146611469296497700268452017090717int);
    lemma_powmod_step(2, 75445702479781427272750846543864801int, 464655731nat, 67146611469296497700268452017090717int, 1, 67831626329970243326589635599205118int);
    lemma_powmod_step(2, 75445702479781427272750846543864801int, 929311463nat, 67831626329970243326589635599205118int, 0, 70178462797941184829210568089390556int);
    lemma_powmod_step(2, 75445702479781427272750846543864801int, 1858622926nat, 70178462797941184829210568089390556int, 0, 69778877950225495669089627691007619int);
    lemma_powmod_step(2, 75445702479781427272750846543864801int, 3717245852nat, 69778877950225495669089627691007619int, 1, 16715392017148382717658823607860887int);
    lemma_powmod_step(2, 75445702479781427272750846543864801int, 7434491705nat, 16715392017148382717658823607860887int, 1, 34314330403712176828441383520685945int);
    lemma_powmod_step(2, 75445702479781427272750846543864801int, 14868983411nat, 34314330403712176828441383520685945int, 1, 74074424176800384559404378280307564int);
    lemma_powmod_step(2, 75445702479781427272750846543864801int, 29737966823nat, 74074424176800384559404378280307564int, 1, 35789940512051074457352072149632450int);
    lemma_powmod_step(2, 75445702479781427272750846543864801int, 59475933647nat, 35789940512051074457352072149632450int, 0, 57603664321261641870847471614315039int);
    lemma_powmod_step(2, 75445702479781427272750846543864801int, 118951867294nat, 57603664321261641870847471614315039int, 0, 62358751208901947907024257212278013int);
    lemma_powmod_step(2, 75445702479781427272750846543864801int, 237903734588nat, 62358751208901947907024257212278013int, 0, 55986404941332609170493674633466473int);
    lemma_powmod_step(2, 75445702479781427272750846543864801int, 475807469176nat, 55986404941332609170493674633466473int, 1, 31498308668990286609379667503759037int);
    lemma_powmod_step(2, 75445702479781427272750846543864801int, 951614938353nat, 31498308668990286609379667503759037int, 0, 58970019007109712197103160461339622int);
    lemma_powmod_step(2, 75445702479781427272750846543864801int, 1903229876706nat, 58970019007109712197103160461339622int, 1, 26637449779235385282324810333973013int);
    lemma_powmod_step(2, 75445702479781427272750846543864801int, 3806459753413nat, 26637449779235385282324810333973013int, 0, 39211296045629881283598956841446188int);
    lemma_powmod_step(2, 75445702479781427272750846543864801int, 7612919506826nat, 39211296045629881283598956841446188int, 1, 15173471924049406584441646996281143int);
    lemma_powmod_step(2, 75445702479781427272750846543864801int, 15225839013653nat, 15173471924049406584441646996281143int, 1, 57885347342992765047725562193967370int);
    lemma_powmod_step(2, 75445702479781427272750846543864801int, 30451678027307nat, 57885347342992765047725562193967370int, 0, 24590376019435277665282337140016579int);
    lemma_powmod_step(2, 75445702479781427272750846543864801int, 60903356054614nat, 24590376019435277665282337140016579int, 1, 21759907754091860548161364015547943int);
    lemma_powmod_step(2, 75445702479781427272750846543864801int, 121806712109229nat, 21759907754091860548161364015547943int, 1, 67653957024126718626966284141343258int);
    lemma_powmod_step(2, 75445702479781427272750846543864801int, 243613424218459nat, 67653957024126718626966284141343258int, 1, 67283426567092766289110453642581906int);
    lemma_powmod_step(2, 75445702479781427272750846543864801int, 487226848436919nat, 67283426567092766289110453642581906int, 0, 33254436664119081059215217741709777int);
    lemma_powmod_step(2, 75445702479781427272750846543864801int, 974453696873838nat, 33254436664119081059215217741709777int, 0, 37269063999070173846404962102660414int);
    lemma_powmod_step(2, 75445702479781427272750846543864801int, 1948907393747676nat, 37269063999070173846404962102660414int, 1, 51919597068534404581052960467970938int);
    lemma_powmod_step(2, 75445702479781427272750846543864801int, 3897814787495353nat, 51919597068534404581052960467970938int, 1, 55396715947041836056967775596881352int);
    lemma_powmod_step(2, 75445702479781427272750846543864801int, 7795629574990707nat, 55396715947041836056967775596881352int, 1, 74648442910010801128490107774316946int);
    lemma_powmod_step(2, 75445702479781427272750846543864801int, 15591259149981415nat, 74648442910010801128490107774316946int, 0, 15461500608639026224518653520386408int);
    lemma_powmod_step(2, 75445702479781427272750846543864801int, 31182518299962830nat, 15461500608639026224518653520386408int, 0, 9149301093535496016503677654342857int);
    lemma_powmod_step(2, 75445702479781427272750846543864801int, 62365036599925660nat, 9149301093535496016503677654342857int, 1, 11110128685353471462157597243418804int);
    lemma_powmod_step(2, 75445702479781427272750846543864801int, 124730073199851321nat, 11110128685353471462157597243418804int, 1, 53105536773056455100588166814832445int);
    lemma_powmod_step(2, 75445702479781427272750846543864801int, 249460146399702643nat, 53105536773056455100588166814832445int, 1, 68473961868737258335784480958954258int);
    lemma_powmod_step(2, 75445702479781427272750846543864801int, 498920292799405287nat, 68473961868737258335784480958954258int, 1, 63460492156760160023663145460455475int);
    lemma_powmod_step(2, 75445702479781427272750846543864801int, 997840585598810575nat, 63460492156760160023663145460455475int, 1, 1466221033251887189234236002609237int);
    lemma_powmod_step(2, 75445702479781427272750846543864801int, 1995681171197621151nat, 1466221033251887189234236002609237int, 1, 57587650503565635120865484174329267int);
    lemma_powmod_step(2, 75445702479781427272750846543864801int, 3991362342395242303nat, 57587650503565635120865484174329267int, 0, 61927348672728082486759434835709021int);
    lemma_powmod_step(2, 75445702479781427272750846543864801int, 7982724684790484606nat, 61927348672728082486759434835709021int, 1, 20775937065621299836744638139924572int);
    lemma_powmod_step(2, 75445702479781427272750846543864801int, 15965449369580969213nat, 20775937065621299836744638139924572int, 0, 28311822029188745446545119431828517int);
    lemma_powmod_step(2, 75445702479781427272750846543864801int, 31930898739161938426nat, 28311822029188745446545119431828517int, 1, 60468535444516253602174169578354725int);
    lemma_powmod_step(2, 75445702479781427272750846543864801int, 63861797478323876853nat, 60468535444516253602174169578354725int, 1, 26212444211284783670492089455296324int);
    lemma_powmod_step(2, 75445702479781427272750846543864801int, 127723594956647753707nat, 26212444211284783670492089455296324int, 1, 15812751277808065955009113002869669int);
    lemma_powmod_step(2, 75445702479781427272750846543864801int, 255447189913295507415nat, 15812751277808065955009113002869669int, 1, 65488085439360156722389129322132791int);
    lemma_powmod_step(2, 75445702479781427272750846543864801int, 510894379826591014831nat, 65488085439360156722389129322132791int, 1, 48553321122870082448084519888572051int);
    lemma_powmod_step(2, 75445702479781427272750846543864801int, 1021788759653182029663nat, 48553321122870082448084519888572051int, 0, 69649633557439525740758139719301258int);
    lemma_powmod_step(2, 75445702479781427272750846543864801int, 2043577519306364059326nat, 69649633557439525740758139719301258int, 1, 36268898619762225541986654766807689int);
    lemma_powmod_step(2, 75445702479781427272750846543864801int, 4087155038612728118653nat, 36268898619762225541986654766807689int, 0, 16057327969371216587988210598776877int);
    lemma_powmod_step(2, 75445702479781427272750846543864801int, 8174310077225456237306nat, 16057327969371216587988210598776877int, 0, 6527436858193186822658590694892602int);
    lemma_powmod_step(2, 75445702479781427272750846543864801int, 16348620154450912474612nat, 6527436858193186822658590694892602int, 1, 42921622290763612044151000272483218int);
    lemma_powmod_step(2, 75445702479781427272750846543864801int, 32697240308901824949225nat, 42921622290763612044151000272483218int, 0, 47737893794339556564413331168223724int);
    lemma_powmod_step(2, 75445702479781427272750846543864801int, 65394480617803649898450nat, 47737893794339556564413331168223724int, 0, 68635775994563306067118444085602908int);
    lemma_powmod_step(2, 75445702479781427272750846543864801int, 130788961235607299796900nat, 68635775994563306067118444085602908int, 0, 51967105050013198655014547114367252int);
    lemma_powmod_step(2, 75445702479781427272750846543864801int, 261577922471214599593800nat, 51967105050013198655014547114367252int, 0, 56828263175517436959394684085513235int);
    lemma_powmod_step(2, 75445702479781427272750846543864801int, 523155844942429199187600nat, 56828263175517436959394684085513235int, 0, 71619851993489548214160924360205394int);
}

/// 75445702479781427272750846543864801 is prime: Pocklington's criterion with a = 2 and the prime factors 1919519569386763 and 72106336199 of n - 1.
proof fn lemma_prime_p75445702479781427272750846543864801()
    ensures
        is_prime(75445702479781427272750846543864801nat),
{
    lemma_prime_p1919519569386763();
    lemma_prime_p72106336199();
    lemma_pow_p75445702479781427272750846543864801_11();
    lemma_pow_p75445702479781427272750846543864801_12();
    lemma_pow_p75445702479781427272750846543864801_13();
    assert forall|f: nat| is_prime(f) && 75445702479781427272750846543864801nat % f == 0 implies #[trigger] ((f - 1) as nat % 138409523410761641138333837nat) == 0 by {
        lemma_pocklington_factor(75445702479781427272750846543864801nat, 2, 1919519569386763nat, 39304471641247389600nat, 56747016255153332959347766392083459nat, (0int - 842866693317702384602976973559126int), 633968117129599619351168283154509int, f);
        lemma_pocklington_factor(75445702479781427272750846543864801nat, 2, 72106336199nat, 1046311689884858398375200nat, 71619851993489548214160924360205394nat, (0int - 19480685746348924030502162157539130int), 18492820452683701227007160369071291int, f);
        lemma_two_primes_divide(1919519569386763nat, 72106336199nat, (f - 1) as nat);
    }
    lemma_prime_by_factor(75445702479781427272750846543864801nat, 138409523410761641138333837nat);
}

/// 430751 is prime, by trial division.
proof fn lemma_prime_p430751()
    ensures
        is_prime(430751nat),
{
    assert(trial(430751nat, 657));
    assert(trial(430751nat, 656));
    assert(trial(430751nat, 655));
    assert(trial(430751nat, 654));
    assert(trial(430751nat, 653));
    assert(trial(430751nat, 652));
    assert(trial(430751nat, 651));
    assert(trial(430751nat, 650));
    assert(trial(430751nat, 649));
    assert(trial(430751nat, 648));
    assert(trial(430751nat, 647));
    assert(trial(430751nat, 646));
    assert(trial(430751nat, 645));
    assert(trial(430751nat, 644));
    assert(trial(430751nat, 643));
    assert(trial(430751nat, 642));
    assert(trial(430751nat, 641));
    assert(trial(430751nat, 640));
    assert(trial(430751nat, 639));
    assert(trial(430751nat, 638));
    assert(trial(430751nat, 637));
    assert(trial(430751nat, 636));
    assert(trial(430751nat, 635));
    assert(trial(430751nat, 634));
    assert(trial(430751nat, 633));
    assert(trial(430751nat, 632));
    assert(trial(430751nat, 631));
    assert(trial(430751nat, 630));
    assert(trial(430751nat, 629));
    assert(trial(430751nat, 628));
    assert(trial(430751nat, 627));
    assert(trial(430751nat, 626));
    assert(trial(430751nat, 625));
    assert(trial(430751nat, 624));
    assert(trial(430751nat, 623));
    assert(trial(430751nat, 622));
    assert(trial(430751nat, 621));
    assert(trial(430751nat, 620));
    assert(trial(430751nat, 619));
    assert(trial(430751nat, 618));
    assert(trial(430751nat, 617));
    assert(trial(430751nat, 616));
    assert(trial(430751nat, 615));
    assert(trial(430751nat, 614));
    assert(trial(430751nat, 613));
    assert(trial(430751nat, 612));
    assert(trial(430751nat, 611));
    assert(trial(430751nat, 610));
    assert(trial(430751nat, 609));
    assert(trial(430751nat, 608));
    assert(trial(430751nat, 607));
    assert(trial(430751nat, 606));
    assert(trial(430751nat, 605));
    assert(trial(430751nat, 604));
    assert(trial(430751nat, 603));
    assert(trial(430751nat, 602));
    assert(trial(430751nat, 601));
    assert(trial(430751nat, 600));
    assert(trial(430751nat, 599));
    assert(trial(430751nat, 598));
    assert(trial(430751nat, 597));
    assert(trial(430751nat, 596));
    assert(trial(430751nat, 595));
    assert(trial(430751nat, 594));
    assert(trial(430751nat, 593));
    assert(trial(430751nat, 592));
    assert(trial(430751nat, 591));
    assert(trial(430751nat, 590));
    assert(trial(430751nat, 589));
    assert(trial(430751nat, 588));
    assert(trial(430751nat, 587));
    assert(trial(430751nat, 586));
    assert(trial(430751nat, 585));
    assert(trial(430751nat, 584));
    assert(trial(430751nat, 583));
    assert(trial(430751nat, 582));
    assert(trial(430751nat, 581));
    assert(trial(430751nat, 580));
    assert(trial(430751nat, 579));
    assert(trial(430751nat, 578));
    assert(trial(430751nat, 577));
    assert(trial(430751nat, 576));
    assert(trial(430751nat, 575));
    assert(trial(430751nat, 574));
    assert(trial(430751nat, 573));
    assert(trial(430751nat, 572));
    assert(trial(430751nat, 571));
    assert(trial(430751nat, 570));
    assert(trial(430751nat, 569));
    assert(trial(430751nat, 568));
    assert(trial(430751nat, 567));
    assert(trial(430751nat, 566));
    assert(trial(430751nat, 565));
    assert(trial(430751nat, 564));
    assert(trial(430751nat, 563));
    assert(trial(430751nat, 562));
    assert(trial(430751nat, 561));
    assert(trial(430751nat, 560));
    assert(trial(430751nat, 559));
    assert(trial(430751nat, 558));
    assert(trial(430751nat, 557));
    assert(trial(430751nat, 556));
    assert(trial(430751nat, 555));
    assert(trial(430751nat, 554));
    assert(trial(430751nat, 553));
    assert(trial(430751nat, 552));
    assert(trial(430751nat, 551));
    assert(trial(430751nat, 550));
    assert(trial(430751nat, 549));
    assert(trial(430751nat, 548));
    assert(trial(430751nat, 547));
    assert(trial(430751nat, 546));
    assert(trial(430751nat, 545));
    assert(trial(430751nat, 544));
    assert(trial(430751nat, 543));
    assert(trial(430751nat, 542));
    assert(trial(430751nat, 541));
    assert(trial(430751nat, 540));
    assert(trial(430751nat, 539));
    assert(trial(430751nat, 538));
    assert(trial(430751nat, 537));
    assert(trial(430751nat, 536));
    assert(trial(430751nat, 535));
    assert(trial(430751nat, 534));
    assert(trial(430751nat, 533));
    assert(trial(430751nat, 532));
    assert(trial(430751nat, 531));
    assert(trial(430751nat, 530));
    assert(trial(430751nat, 529));
    assert(trial(430751nat, 528));
    assert(trial(430751nat, 527));
    assert(trial(430751nat, 526));
    assert(trial(430751nat, 525));
    assert(trial(430751nat, 524));
    assert(trial(430751nat, 523));
    assert(trial(430751nat, 522));
    assert(trial(430751nat, 521));
    assert(trial(430751nat, 520));
    assert(trial(430751nat, 519));
    assert(trial(430751nat, 518));
    assert(trial(430751nat, 517));
    assert(trial(430751nat, 516));
    assert(trial(430751nat, 515));
    assert(trial(430751nat, 514));
    assert(trial(430751nat, 513));
    assert(trial(430751nat, 512));
    assert(trial(430751nat, 511));
    assert(trial(430751nat, 510));
    assert(trial(430751nat, 509));
    assert(trial(430751nat, 508));
    assert(trial(430751nat, 507));
    assert(trial(430751nat, 506));
    assert(trial(430751nat, 505));
    assert(trial(430751nat, 504));
    assert(trial(430751nat, 503));
    assert(trial(430751nat, 502));
    assert(trial(430751nat, 501));
    assert(trial(430751nat, 500));
    assert(trial(430751nat, 499));
    assert(trial(430751nat, 498));
    assert(trial(430751nat, 497));
    assert(trial(430751nat, 496));
    assert(trial(430751nat, 495));
    assert(trial(430751nat, 494));
    assert(trial(430751nat, 493));
    assert(trial(430751nat, 492));
    assert(trial(430751nat, 491));
    assert(trial(430751nat, 490));
    assert(trial(430751nat, 489));
    assert(trial(430751nat, 488));
    assert(trial(430751nat, 487));
    assert(trial(430751nat, 486));
    assert(trial(430751nat, 485));
    assert(trial(430751nat, 484));
    assert(trial(430751nat, 483));
    assert(trial(430751nat, 482));
    assert(trial(430751nat, 481));
    assert(trial(430751nat, 480));
    assert(trial(430751nat, 479));
    assert(trial(430751nat, 478));
    assert(trial(430751nat, 477));
    assert(trial(430751nat, 476));
    assert(trial(430751nat, 475));
    assert(trial(430751nat, 474));
    assert(trial(430751nat, 473));
    assert(trial(430751nat, 472));
    assert(trial(430751nat, 471));
    assert(trial(430751nat, 470));
    assert(trial(430751nat, 469));
    assert(trial(430751nat, 468));
    assert(trial(430751nat, 467));
    assert(trial(430751nat, 466));
    assert(trial(430751nat, 465));
    assert(trial(430751nat, 464));
    assert(trial(430751nat, 463));
    assert(trial(430751nat, 462));
    assert(trial(430751nat, 461));
    assert(trial(430751nat, 460));
    assert(trial(430751nat, 459));
    assert(trial(430751nat, 458));
    assert(trial(430751nat, 457));
    assert(trial(430751nat, 456));
    assert(trial(430751nat, 455));
    assert(trial(430751nat, 454));
    assert(trial(430751nat, 453));
    assert(trial(430751nat, 452));
    assert(trial(430751nat, 451));
    assert(trial(430751nat, 450));
    assert(trial(430751nat, 449));
    assert(trial(430751nat, 448));
    assert(trial(430751nat, 447));
    assert(trial(430751nat, 446));
    assert(trial(430751nat, 445));
    assert(trial(430751nat, 444));
    assert(trial(430751nat, 443));
    assert(trial(430751nat, 442));
    assert(trial(430751nat, 441));
    assert(trial(430751nat, 440));
    assert(trial(430751nat, 439));
    assert(trial(430751nat, 438));
    assert(trial(430751nat, 437));
    assert(trial(430751nat, 436));
    assert(trial(430751nat, 435));
    assert(trial(430751nat, 434));
    assert(trial(430751nat, 433));
    assert(trial(430751nat, 432));
    assert(trial(430751nat, 431));
    assert(trial(430751nat, 430));
    assert(trial(430751nat, 429));
    assert(trial(430751nat, 428));
    assert(trial(430751nat, 427));
    assert(trial(430751nat, 426));
    assert(trial(430751nat, 425));
    assert(trial(430751nat, 424));
    assert(trial(430751nat, 423));
    assert(trial(430751nat, 422));
    assert(trial(430751nat, 421));
    assert(trial(430751nat, 420));
    assert(trial(430751nat, 419));
    assert(trial(430751nat, 418));
    assert(trial(430751nat, 417));
    assert(trial(430751nat, 416));
    assert(trial(430751nat, 415));
    assert(trial(430751nat, 414));
    assert(trial(430751nat, 413));
    assert(trial(430751nat, 412));
    assert(trial(430751nat, 411));
    assert(trial(430751nat, 410));
    assert(trial(430751nat, 409));
    assert(trial(430751nat, 408));
    assert(trial(430751nat, 407));
    assert(trial(430751nat, 406));
    assert(trial(430751nat, 405));
    assert(trial(430751nat, 404));
    assert(trial(430751nat, 403));
    assert(trial(430751nat, 402));
    assert(trial(430751nat, 401));
    assert(trial(430751nat, 400));
    assert(trial(430751nat, 399));
    assert(trial(430751nat, 398));
    assert(trial(430751nat, 397));
    assert(trial(430751nat, 396));
    assert(trial(430751nat, 395));
    assert(trial(430751nat, 394));
    assert(trial(430751nat, 393));
    assert(trial(430751nat, 392));
    assert(trial(430751nat, 391));
    assert(trial(430751nat, 390));
    assert(trial(430751nat, 389));
    assert(trial(430751nat, 388));
    assert(trial(430751nat, 387));
    assert(trial(430751nat, 386));
    assert(trial(430751nat, 385));
    assert(trial(430751nat, 384));
    assert(trial(430751nat, 383));
    assert(trial(430751nat, 382));
    assert(trial(430751nat, 381));
    assert(trial(430751nat, 380));
    assert(trial(430751nat, 379));
    assert(trial(430751nat, 378));
    assert(trial(430751nat, 377));
    assert(trial(430751nat, 376));
    assert(trial(430751nat, 375));
    assert(trial(430751nat, 374));
    assert(trial(430751nat, 373));
    assert(trial(430751nat, 372));
    assert(trial(430751nat, 371));
    assert(trial(430751nat, 370));
    assert(trial(430751nat, 369));
    assert(trial(430751nat, 368));
    assert(trial(430751nat, 367));
    assert(trial(430751nat, 366));
    assert(trial(430751nat, 365));
    assert(trial(430751nat, 364));
    assert(trial(430751nat, 363));
    assert(trial(430751nat, 362));
    assert(trial(430751nat, 361));
    assert(trial(430751nat, 360));
    assert(trial(430751nat, 359));
    assert(trial(430751nat, 358));
    assert(trial(430751nat, 357));
    assert(trial(430751nat, 356));
    assert(trial(430751nat, 355));
    assert(trial(430751nat, 354));
    assert(trial(430751nat, 353));
    assert(trial(430751nat, 352));
    assert(trial(430751nat, 351));
    assert(trial(430751nat, 350));
    assert(trial(430751nat, 349));
    assert(trial(430751nat, 348));
    assert(trial(430751nat, 347));
    assert(trial(430751nat, 346));
    assert(trial(430751nat, 345));
    assert(trial(430751nat, 344));
    assert(trial(430751nat, 343));
    assert(trial(430751nat, 342));
    assert(trial(430751nat, 341));
    assert(trial(430751nat, 340));
    assert(trial(430751nat, 339));
    assert(trial(430751nat, 338));
    assert(trial(430751nat, 337));
    assert(trial(430751nat, 336));
    assert(trial(430751nat, 335));
    assert(trial(430751nat, 334));
    assert(trial(430751nat, 333));
    assert(trial(430751nat, 332));
    assert(trial(430751nat, 331));
    assert(trial(430751nat, 330));
    assert(trial(430751nat, 329));
    assert(trial(430751nat, 328));
    assert(trial(430751nat, 327));
    assert(trial(430751nat, 326));
    assert(trial(430751nat, 325));
    assert(trial(430751nat, 324));
    assert(trial(430751nat, 323));
    assert(trial(430751nat, 322));
    assert(trial(430751nat, 321));
    assert(trial(430751nat, 320));
    assert(trial(430751nat, 319));
    assert(trial(430751nat, 318));
    assert(trial(430751nat, 317));
    assert(trial(430751nat, 316));
    assert(trial(430751nat, 315));
    assert(trial(430751nat, 314));
    assert(trial(430751nat, 313));
    assert(trial(430751nat, 312));
    assert(trial(430751nat, 311));
    assert(trial(430751nat, 310));
    assert(trial(430751nat, 309));
    assert(trial(430751nat, 308));
    assert(trial(430751nat, 307));
    assert(trial(430751nat, 306));
    assert(trial(430751nat, 305));
    assert(trial(430751nat, 304));
    assert(trial(430751nat, 303));
    assert(trial(430751nat, 302));
    assert(trial(430751nat, 301));
    assert(trial(430751nat, 300));
    assert(trial(430751nat, 299));
    assert(trial(430751nat, 298));
    assert(trial(430751nat, 297));
    assert(trial(430751nat, 296));
    assert(trial(430751nat, 295));
    assert(trial(430751nat, 294));
    assert(trial(430751nat, 293));
    assert(trial(430751nat, 292));
    assert(trial(430751nat, 291));
    assert(trial(430751nat, 290));
    assert(trial(430751nat, 289));
    assert(trial(430751nat, 288));
    assert(trial(430751nat, 287));
    assert(trial(430751nat, 286));
    assert(trial(430751nat, 285));
    assert(trial(430751nat, 284));
    assert(trial(430751nat, 283));
    assert(trial(430751nat, 282));
    assert(trial(430751nat, 281));
    assert(trial(430751nat, 280));
    assert(trial(430751nat, 279));
    assert(trial(430751nat, 278));
    assert(trial(430751nat, 277));
    assert(trial(430751nat, 276));
    assert(trial(430751nat, 275));
    assert(trial(430751nat, 274));
    assert(trial(430751nat, 273));
    assert(trial(430751nat, 272));
    assert(trial(430751nat, 271));
    assert(trial(430751nat, 270));
    assert(trial(430751nat, 269));
    assert(trial(430751nat, 268));
    assert(trial(430751nat, 267));
    assert(trial(430751nat, 266));
    assert(trial(430751nat, 265));
    assert(trial(430751nat, 264));
    assert(trial(430751nat, 263));
    assert(trial(430751nat, 262));
    assert(trial(430751nat, 261));
    assert(trial(430751nat, 260));
    assert(trial(430751nat, 259));
    assert(trial(430751nat, 258));
    assert(trial(430751nat, 257));
    assert(trial(430751nat, 256));
    assert(trial(430751nat, 255));
    assert(trial(430751nat, 254));
    assert(trial(430751nat, 253));
    assert(trial(430751nat, 252));
    assert(trial(430751nat, 251));
    assert(trial(430751nat, 250));
    assert(trial(430751nat, 249));
    assert(trial(430751nat, 248));
    assert(trial(430751nat, 247));
    assert(trial(430751nat, 246));
    assert(trial(430751nat, 245));
    assert(trial(430751nat, 244));
    assert(trial(430751nat, 243));
    assert(trial(430751nat, 242));
    assert(trial(430751nat, 241));
    assert(trial(430751nat, 240));
    assert(trial(430751nat, 239));
    assert(trial(430751nat, 238));
    assert(trial(430751nat, 237));
    assert(trial(430751nat, 236));
    assert(trial(430751nat, 235));
    assert(trial(430751nat, 234));
    assert(trial(430751nat, 233));
    assert(trial(430751nat, 232));
    assert(trial(430751nat, 231));
    assert(trial(430751nat, 230));
    assert(trial(430751nat, 229));
    assert(trial(430751nat, 228));
    assert(trial(430751nat, 227));
    assert(trial(430751nat, 226));
    assert(trial(430751nat, 225));
    assert(trial(430751nat, 224));
    assert(trial(430751nat, 223));
    assert(trial(430751nat, 222));
    assert(trial(430751nat, 221));
    assert(trial(430751nat, 220));
    assert(trial(430751nat, 219));
    assert(trial(430751nat, 218));
    assert(trial(430751nat, 217));
    assert(trial(430751nat, 216));
    assert(trial(430751nat, 215));
    assert(trial(430751nat, 214));
    assert(trial(430751nat, 213));
    assert(trial(430751nat, 212));
    assert(trial(430751nat, 211));
    assert(trial(430751nat, 210));
    assert(trial(430751nat, 209));
    assert(trial(430751nat, 208));
    assert(trial(430751nat, 207));
    assert(trial(430751nat, 206));
    assert(trial(430751nat, 205));
    assert(trial(430751nat, 204));
    assert(trial(430751nat, 203));
    assert(trial(430751nat, 202));
    assert(trial(430751nat, 201));
    assert(trial(430751nat, 200));
    assert(trial(430751nat, 199));
    assert(trial(430751nat, 198));
    assert(trial(430751nat, 197));
    assert(trial(430751nat, 196));
    assert(trial(430751nat, 195));
    assert(trial(430751nat, 194));
    assert(trial(430751nat, 193));
    assert(trial(430751nat, 192));
    assert(trial(430751nat, 191));
    assert(trial(430751nat, 190));
    assert(trial(430751nat, 189));
    assert(trial(430751nat, 188));
    assert(trial(430751nat, 187));
    assert(trial(430751nat, 186));
    assert(trial(430751nat, 185));
    assert(trial(430751nat, 184));
    assert(trial(430751nat, 183));
    assert(trial(430751nat, 182));
    assert(trial(430751nat, 181));
    assert(trial(430751nat, 180));
    assert(trial(430751nat, 179));
    assert(trial(430751nat, 178));
    assert(trial(430751nat, 177));
    assert(trial(430751nat, 176));
    assert(trial(430751nat, 175));
    assert(trial(430751nat, 174));
    assert(trial(430751nat, 173));
    assert(trial(430751nat, 172));
    assert(trial(430751nat, 171));
    assert(trial(430751nat, 170));
    assert(trial(430751nat, 169));
    assert(trial(430751nat, 168));
    assert(trial(430751nat, 167));
    assert(trial(430751nat, 166));
    assert(trial(430751nat, 165));
    assert(trial(430751nat, 164));
    assert(trial(430751nat, 163));
    assert(trial(430751nat, 162));
    assert(trial(430751nat, 161));
    assert(trial(430751nat, 160));
    assert(trial(430751nat, 159));
    assert(trial(430751nat, 158));
    assert(trial(430751nat, 157));
    assert(trial(430751nat, 156));
    assert(trial(430751nat, 155));
    assert(trial(430751nat, 154));
    assert(trial(430751nat, 153));
    assert(trial(430751nat, 152));
    assert(trial(430751nat, 151));
    assert(trial(430751nat, 150));
    assert(trial(430751nat, 149));
    assert(trial(430751nat, 148));
    assert(trial(430751nat, 147));
    assert(trial(430751nat, 146));
    assert(trial(430751nat, 145));
    assert(trial(430751nat, 144));
    assert(trial(430751nat, 143));
    assert(trial(430751nat, 142));
    assert(trial(430751nat, 141));
    assert(trial(430751nat, 140));
    assert(trial(430751nat, 139));
    assert(trial(430751nat, 138));
    assert(trial(430751nat, 137));
    assert(trial(430751nat, 136));
    assert(trial(430751nat, 135));
    assert(trial(430751nat, 134));
    assert(trial(430751nat, 133));
    assert(trial(430751nat, 132));
    assert(trial(430751nat, 131));
    assert(trial(430751nat, 130));
    assert(trial(430751nat, 129));
    assert(trial(430751nat, 128));
    assert(trial(430751nat, 127));
    assert(trial(430751nat, 126));
    assert(trial(430751nat, 125));
    assert(trial(430751nat, 124));
    assert(trial(430751nat, 123));
    assert(trial(430751nat, 122));
    assert(trial(430751nat, 121));
    assert(trial(430751nat, 120));
    assert(trial(430751nat, 119));
    assert(trial(430751nat, 118));
    assert(trial(430751nat, 117));
    assert(trial(430751nat, 116));
    assert(trial(430751nat, 115));
    assert(trial(430751nat, 114));
    assert(trial(430751nat, 113));
    assert(trial(430751nat, 112));
    assert(trial(430751nat, 111));
    assert(trial(430751nat, 110));
    assert(trial(430751nat, 109));
    assert(trial(430751nat, 108));
    assert(trial(430751nat, 107));
    assert(trial(430751nat, 106));
    assert(trial(430751nat, 105));
    assert(trial(430751nat, 104));
    assert(trial(430751nat, 103));
    assert(trial(430751nat, 102));
    assert(trial(430751nat, 101));
    assert(trial(430751nat, 100));
    assert(trial(430751nat, 99));
    assert(trial(430751nat, 98));
    assert(trial(430751nat, 97));
    assert(trial(430751nat, 96));
    assert(trial(430751nat, 95));
    assert(trial(430751nat, 94));
    assert(trial(430751nat, 93));
    assert(trial(430751nat, 92));
    assert(trial(430751nat, 91));
    assert(trial(430751nat, 90));
    assert(trial(430751nat, 89));
    assert(trial(430751nat, 88));
    assert(trial(430751nat, 87));
    assert(trial(430751nat, 86));
    assert(trial(430751nat, 85));
    assert(trial(430751nat, 84));
    assert(trial(430751nat, 83));
    assert(trial(430751nat, 82));
    assert(trial(430751nat, 81));
    assert(trial(430751nat, 80));
    assert(trial(430751nat, 79));
    assert(trial(430751nat, 78));
    assert(trial(430751nat, 77));
    assert(trial(430751nat, 76));
    assert(trial(430751nat, 75));
    assert(trial(430751nat, 74));
    assert(trial(430751nat, 73));
    assert(trial(430751nat, 72));
    assert(trial(430751nat, 71));
    assert(trial(430751nat, 70));
    assert(trial(430751nat, 69));
    assert(trial(430751nat, 68));
    assert(trial(430751nat, 67));
    assert(trial(430751nat, 66));
    assert(trial(430751nat, 65));
    assert(trial(430751nat, 64));
    assert(trial(430751nat, 63));
    assert(trial(430751nat, 62));
    assert(trial(430751nat, 61));
    assert(trial(430751nat, 60));
    assert(trial(430751nat, 59));
    assert(trial(430751nat, 58));
    assert(trial(430751nat, 57));
    assert(trial(430751nat, 56));
    assert(trial(430751nat, 55));
    assert(trial(430751nat, 54));
    assert(trial(430751nat, 53));
    assert(trial(430751nat, 52));
    assert(trial(430751nat, 51));
    assert(trial(430751nat, 50));
    assert(trial(430751nat, 49));
    assert(trial(430751nat, 48));
    assert(trial(430751nat, 47));
    assert(trial(430751nat, 46));
    assert(trial(430751nat, 45));
    assert(trial(430751nat, 44));
    assert(trial(430751nat, 43));
    assert(trial(430751nat, 42));
    assert(trial(430751nat, 41));
    assert(trial(430751nat, 40));
    assert(trial(430751nat, 39));
    assert(trial(430751nat, 38));
    assert(trial(430751nat, 37));
    assert(trial(430751nat, 36));
    assert(trial(430751nat, 35));
    assert(trial(430751nat, 34));
    assert(trial(430751nat, 33));
    assert(trial(430751nat, 32));
    assert(trial(430751nat, 31));
    assert(trial(430751nat, 30));
    assert(trial(430751nat, 29));
    assert(trial(430751nat, 28));
    assert(trial(430751nat, 27));
    assert(trial(430751nat, 26));
    assert(trial(430751nat, 25));
    assert(trial(430751nat, 24));
    assert(trial(430751nat, 23));
    assert(trial(430751nat, 22));
    assert(trial(430751nat, 21));
    assert(trial(430751nat, 20));
    assert(trial(430751nat, 19));
    assert(trial(430751nat, 18));
    assert(trial(430751nat, 17));
    assert(trial(430751nat, 16));
    assert(trial(430751nat, 15));
    assert(trial(430751nat, 14));
    assert(trial(430751nat, 13));
    assert(trial(430751nat, 12));
    assert(trial(430751nat, 11));
    assert(trial(430751nat, 10));
    assert(trial(430751nat, 9));
    assert(trial(430751nat, 8));
    assert(trial(430751nat, 7));
    assert(trial(430751nat, 6));
    assert(trial(430751nat, 5));
    assert(trial(430751nat, 4));
    assert(trial(430751nat, 3));
    assert(trial(430751nat, 2));
    lemma_trial_prime(430751nat);
}

/// 4153 is prime, by trial division.
proof fn lemma_prime_p4153()
    ensures
        is_prime(4153nat),
{
    assert(trial(4153nat, 65));
    assert(trial(4153nat, 64));
    assert(trial(4153nat, 63));
    assert(trial(4153nat, 62));
    assert(trial(4153nat, 61));
    assert(trial(4153nat, 60));
    assert(trial(4153nat, 59));
    assert(trial(4153nat, 58));
    assert(trial(4153nat, 57));
    assert(trial(4153nat, 56));
    assert(trial(4153nat, 55));
    assert(trial(4153nat, 54));
    assert(trial(4153nat, 53));
    assert(trial(4153nat, 52));
    assert(trial(4153nat, 51));
    assert(trial(4153nat, 50));
    assert(trial(4153nat, 49));
    assert(trial(4153nat, 48));
    assert(trial(4153nat, 47));
    assert(trial(4153nat, 46));
    assert(trial(4153nat, 45));
    assert(trial(4153nat, 44));
    assert(trial(4153nat, 43));
    assert(trial(4153nat, 42));
    assert(trial(4153nat, 41));
    assert(trial(4153nat, 40));
    assert(trial(4153nat, 39));
    assert(trial(4153nat, 38));
    assert(trial(4153nat, 37));
    assert(trial(4153nat, 36));
    assert(trial(4153nat, 35));
    assert(trial(4153nat, 34));
    assert(trial(4153nat, 33));
    assert(trial(4153nat, 32));
    assert(trial(4153nat, 31));
    assert(trial(4153nat, 30));
    assert(trial(4153nat, 29));
    assert(trial(4153nat, 28));
    assert(trial(4153nat, 27));
    assert(trial(4153nat, 26));
    assert(trial(4153nat, 25));
    assert(trial(4153nat, 24));
    assert(trial(4153nat, 23));
    assert(trial(4153nat, 22));
    assert(trial(4153nat, 21));
    assert(trial(4153nat, 20));
    assert(trial(4153nat, 19));
    assert(trial(4153nat, 18));
    assert(trial(4153nat, 17));
    assert(trial(4153nat, 16));
    assert(trial(4153nat, 15));
    assert(trial(4153nat, 14));
    assert(trial(4153nat, 13));
    assert(trial(4153nat, 12));
    assert(trial(4153nat, 11));
    assert(trial(4153nat, 10));
    assert(trial(4153nat, 9));
    assert(trial(4153nat, 8));
    assert(trial(4153nat, 7));
    assert(trial(4153nat, 6));
    assert(trial(4153nat, 5));
    assert(trial(4153nat, 4));
    assert(trial(4153nat, 3));
    assert(trial(4153nat, 2));
    lemma_trial_prime(4153nat);
}

proof fn lemma_pow_p31757755568855353_14()
    ensures
        pow(2, 31757755568855352nat) % 31757755568855353int == 1int,
{
    lemma_pow1(2);
    lemma_small_mod(2, 31757755568855353nat);
    lemma_powmod_step(2, 31757755568855353int, 1nat, 2int, 1, 8int);
    lemma_powmod_step(2, 31757755568855353int, 3nat, 8int, 1, 128int);
    lemma_powmod_step(2, 31757755568855353int, 7nat, 128int, 0, 16384int);
    lemma_powmod_step(2, 31757755568855353int, 14nat, 16384int, 0, 268435456int);
    lemma_powmod_step(2, 31757755568855353int, 28nat, 268435456int, 0, 8542082900217230int);
    lemma_powmod_step(2, 31757755568855353int, 56nat, 8542082900217230int, 0, 22692747300129158int);
    lemma_powmod_step(2, 31757755568855353int, 112nat, 22692747300129158int, 1, 19250463543733480int);
    lemma_powmod_step(2, 31757755568855353int, 225nat, 19250463543733480int, 1, 7437187630839531int);
    lemma_powmod_step(2, 31757755568855353int, 451nat, 7437187630839531int, 0, 16671304564977143int);
    lemma_powmod_step(2, 31757755568855353int, 902nat, 16671304564977143int, 1, 30076795790270490int);
    lemma_powmod_step(2, 31757755568855353int, 1805nat, 30076795790270490int, 0, 18368978697569632int);
    lemma_powmod_step(2, 31757755568855353int, 3610nat, 18368978697569632int, 0, 14150416409090476int);
    lemma_powmod_step(2, 31757755568855353int, 7220nat, 14150416409090476int, 1, 14464864565653932int);
    lemma_powmod_step(2, 31757755568855353int, 14441nat, 14464864565653932int, 1, 5773737998046371int);
    lemma_powmod_step(2, 31757755568855353int, 28883nat, 5773737998046371int, 1, 11793979495029557int);
    lemma_powmod_step(2, 31757755568855353int, 57767nat, 11793979495029557int, 0, 18007910652691237int);
    lemma_powmod_step(2, 31757755568855353int, 115534nat, 18007910652691237int, 0, 1183692871255822int);
    lemma_powmod_step(2, 31757755568855353int, 231068nat, 1183692871255822int, 0, 7908864144599376int);
    lemma_powmod_step(2, 31757755568855353int, 462136nat, 7908864144599376int, 0, 13617271671438546int);
    lemma_powmod_step(2, 31757755568855353int, 924272nat, 13617271671438546int, 0, 14284533553617513int);
    lemma_powmod_step(2, 31757755568855353int, 1848544nat, 14284533553617513int, 1, 3586089139898187int);
    lemma_powmod_step(2, 31757755568855353int, 3697089nat, 3586089139898187int, 0, 24637548899574716int);
    lemma_powmod_step(2, 31757755568855353int, 7394178nat, 24637548899574716int, 1, 19912436745266380int);
    lemma_powmod_step(2, 31757755568855353int, 14788357nat, 19912436745266380int, 0, 1743207176040747int);
    lemma_powmod_step(2, 31757755568855353int, 29576714nat, 1743207176040747int, 1, 21816437034549653int);
    lemma_powmod_step(2, 31757755568855353int, 59153429nat, 21816437034549653int, 0, 28498574362339338int);
    lemma_powmod_step(2, 31757755568855353int, 118306858nat, 28498574362339338int, 1, 5457958640767911int);
    lemma_powmod_step(2, 31757755568855353int, 236613717nat, 5457958640767911int, 0, 28305220489849473int);
    lemma_powmod_step(2, 31757755568855353int, 473227434nat, 28305220489849473int, 1, 14338777834684599int);
    lemma_powmod_step(2, 31757755568855353int, 946454869nat, 14338777834684599int, 1, 29475986570691858int);
    lemma_powmod_step(2, 31757755568855353int, 1892909739nat, 29475986570691858int, 1, 14318419405104721int);
    lemma_powmod_step(2, 31757755568855353int, 3785819479nat, 14318419405104721int, 0, 7773184367694315int);
    lemma_powmod_step(2, 31757755568855353int, 7571638958nat, 7773184367694315int, 0, 1021390448093826int);
    lemma_powmod_step(2, 31757755568855353int, 15143277916nat, 1021390448093826int, 0, 801528549101829int);
    lemma_powmod_step(2, 31757755568855353int, 30286555832nat, 801528549101829int, 1, 30554141980016993int);
    lemma_powmod_step(2, 31757755568855353int, 60573111665nat, 30554141980016993int, 0, 16206603590309236int);
    lemma_powmod_step(2, 31757755568855353int, 121146223330nat, 16206603590309236int, 1, 17369008686044748int);
    lemma_powmod_step(2, 31757755568855353int, 242292446661nat, 17369008686044748int, 1, 13116690212359874int);
    lemma_powmod_step(2, 31757755568855353int, 484584893323nat, 13116690212359874int, 1, 23932784944780021int);
    lemma_powmod_step(2, 31757755568855353int, 969169786647nat, 23932784944780021int, 0, 7511016124054996int);
    lemma_powmod_step(2, 31757755568855353int, 1938339573294nat, 7511016124054996int, 0, 20423690735177408int);
    lemma_powmod_step(2, 31757755568855353int, 3876679146588nat, 20423690735177408int, 1, 27816266430560740int);
    lemma_powmod_step(2, 31757755568855353int, 7753358293177nat, 27816266430560740int, 1, 10532328675486819int);
    lemma_powmod_step(2, 31757755568855353int, 15506716586355nat, 10532328675486819int, 0, 16889812442139345int);
    lemma_powmod_step(2, 31757755568855353int, 31013433172710nat, 16889812442139345int, 0, 4125202903091291int);
    lemma_powmod_step(2, 31757755568855353int, 62026866345420nat, 4125202903091291int, 1, 24066472353984111int);
    lemma_powmod_step(2, 31757755568855353int, 124053732690841nat, 24066472353984111int, 0, 14774387031133356int);
    lemma_powmod_step(2, 31757755568855353int, 248107465381682nat, 14774387031133356int, 0, 23098677447701434int);
    lemma_powmod_step(2, 31757755568855353int, 496214930763364nat, 23098677447701434int, 1, 2248363241063303int);
    lemma_powmod_step(2, 31757755568855353int, 992429861526729nat, 2248363241063303int, 1, 17487502423494678int);
    lemma_powmod_step(2, 31757755568855353int, 1984859723053459nat, 17487502423494678int, 1, 3217249278134002int);
    lemma_powmod_step(2, 31757755568855353int, 3969719446106919nat, 3217249278134002int, 0, 31757755568855352int);
    lemma_powmod_step(2, 31757755568855353int, 7939438892213838nat, 31757755568855352int, 0, 1int);
    lemma_powmod_step(2, 31757755568855353int, 15878877784427676nat, 1int, 0, 1int);
}

proof fn lemma_pow_p31757755568855353_15()
    ensures
        pow(2, 73726481352nat) % 31757755568855353int == 15280470251845350int,
{
    lemma_pow1(2);
    lemma_small_mod(2, 31757755568855353nat);
    lemma_powmod_step(2, 31757755568855353int, 1nat, 2int, 0, 4int);
    lemma_powmod_step(2, 31757755568855353int, 2nat, 4int, 0, 16int);
    lemma_powmod_step(2, 31757755568855353int, 4nat, 16int, 0, 256int);
    lemma_powmod_step(2, 31757755568855353int, 8nat, 256int, 1, 131072int);
    lemma_powmod_step(2, 31757755568855353int, 17nat, 131072int, 0, 17179869184int);
    lemma_powmod_step(2, 31757755568855353int, 34nat, 17179869184int, 0, 23082677980030427int);
    lemma_powmod_step(2, 31757755568855353int, 68nat, 23082677980030427int, 1, 6189283819116928int);
    lemma_powmod_step(2, 31757755568855353int, 137nat, 6189283819116928int, 0, 409879969792int);
    lemma_powmod_step(2, 31757755568855353int, 274nat, 409879969792int, 1, 27865822810078752int);
    lemma_powmod_step(2, 31757755568855353int, 549nat, 27865822810078752int, 0, 25262729063756362int);
    lemma_powmod_step(2, 31757755568855353int, 1098nat, 25262729063756362int, 1, 26168973387808700int);
    lemma_powmod_step(2, 31757755568855353int, 2197nat, 26168973387808700int, 0, 18798856303062660int);
    lemma_powmod_step(2, 31757755568855353int, 4394nat, 18798856303062660int, 0, 6321774915091467int);
    lemma_powmod_step(2, 31757755568855353int, 8788nat, 6321774915091467int, 1, 31441540287767721int);
    lemma_powmod_step(2, 31757755568855353int, 17577nat, 31441540287767721int, 1, 31455086752944526int);
    lemma_powmod_step(2, 31757755568855353int, 35155nat, 31455086752944526int, 1, 11359136553060322int);
    lemma_powmod_step(2, 31757755568855353int, 70311nat, 11359136553060322int, 0, 24816684380077377int);
    lemma_powmod_step(2, 31757755568855353int, 140622nat, 24816684380077377int, 0, 8001860857690370int);
    lemma_powmod_step(2, 31757755568855353int, 281244nat, 8001860857690370int, 0, 20751557184630872int);
    lemma_powmod_step(2, 31757755568855353int, 562488nat, 20751557184630872int, 0, 31652723684219594int);
    lemma_powmod_step(2, 31757755568855353int, 1124976nat, 31652723684219594int, 1, 28526704272598463int);
    lemma_powmod_step(2, 31757755568855353int, 2249953nat, 28526704272598463int, 1, 31730979877249560int);
    lemma_powmod_step(2, 31757755568855353int, 4499907nat, 31730979877249560int, 0, 30274567321714832int);
    lemma_powmod_step(2, 31757755568855353int, 8999814nat, 30274567321714832int, 1, 2867040235286003int);
    lemma_powmod_step(2, 31757755568855353int, 17999629nat, 2867040235286003int, 0, 18730824869059872int);
    lemma_powmod_step(2, 31757755568855353int, 35999258nat, 18730824869059872int, 0, 10035057760445596int);
    lemma_powmod_step(2, 31757755568855353int, 71998516nat, 10035057760445596int, 1, 31497479996058923int);
    lemma_powmod_step(2, 31757755568855353int, 143997033nat, 31497479996058923int, 1, 26724730022547003int);
    lemma_powmod_step(2, 31757755568855353int, 287994067nat, 26724730022547003int, 1, 16921729443001854int);
    lemma_powmod_step(2, 31757755568855353int, 575988135nat, 16921729443001854int, 1, 5481038204497584int);
    lemma_powmod_step(2, 31757755568855353int, 1151976271nat, 5481038204497584int, 0, 16879850948497325int);
    lemma_powmod_step(2, 31757755568855353int, 2303952542nat, 16879850948497325int, 0, 22054500742290216int);
    lemma_powmod_step(2, 31757755568855353int, 4607905084nat, 22054500742290216int, 1, 9935653922320858int);
    lemma_powmod_step(2, 31757755568855353int, 9215810169nat, 9935653922320858int, 0, 3563490384942016int);
    lemma_powmod_step(2, 31757755568855353int, 18431620338nat, 3563490384942016int, 0, 25084846543403101int);
    lemma_powmod_step(2, 31757755568855353int, 36863240676nat, 25084846543403101int, 0, 15280470251845350int);
}

proof fn lemma_pow_p31757755568855353_16()
    ensures
        pow(2, 7646943310584nat) % 31757755568855353int == 28256283979054930int,
{
    lemma_pow1(2);
    lemma_small_mod(2, 31757755568855353nat);
    lemma_powmod_step(2, 31757755568855353int, 1nat, 2int, 1, 8int);
    lemma_powmod_step(2, 31757755568855353int, 3nat, 8int, 0, 64int);
    lemma_powmod_step(2, 31757755568855353int, 6nat, 64int, 1, 8192int);
    lemma_powmod_step(2, 31757755568855353int, 13nat, 8192int, 1, 134217728int);
    lemma_powmod_step(2, 31757755568855353int, 27nat, 134217728int, 1, 4271041450108615int);
    lemma_powmod_step(2, 31757755568855353int, 55nat, 4271041450108615int, 1, 11346373650064579int);
    lemma_powmod_step(2, 31757755568855353int, 111nat, 11346373650064579int, 0, 2406307942966685int);
    lemma_powmod_step(2, 31757755568855353int, 222nat, 2406307942966685int, 1, 30385316833297126int);
    lemma_powmod_step(2, 31757755568855353int, 445nat, 30385316833297126int, 0, 30404988010265336int);
    lemma_powmod_step(2, 31757755568855353int, 890nat, 30404988010265336int, 0, 239648948114019int);
    lemma_powmod_step(2, 31757755568855353int, 1780nat, 239648948114019int, 0, 338605674345114int);
    lemma_powmod_step(2, 31757755568855353int, 3560nat, 338605674345114int, 1, 16469254568173825int);
    lemma_powmod_step(2, 31757755568855353int, 7121nat, 16469254568173825int, 1, 17530151797787619int);
    lemma_powmod_step(2, 31757755568855353int, 14243nat, 17530151797787619int, 1, 19110784020358878int);
    lemma_powmod_step(2, 31757755568855353int, 28487nat, 19110784020358878int, 0, 732534440715212int);
    lemma_powmod_step(2, 31757755568855353int, 56974nat, 732534440715212int, 0, 8360217707000024int);
    lemma_powmod_step(2, 31757755568855353int, 113948nat, 8360217707000024int, 0, 27743146053430314int);
    lemma_powmod_step(2, 31757755568855353int, 227896nat, 27743146053430314int, 1, 5252851398144814int);
    lemma_powmod_step(2, 31757755568855353int, 455793nat, 5252851398144814int, 0, 26689566062471987int);
    lemma_powmod_step(2, 31757755568855353int, 911586nat, 26689566062471987int, 1, 17407689980483282int);
    lemma_powmod_step(2, 31757755568855353int, 1823173nat, 17407689980483282int, 0, 26727810224327855int);
    lemma_powmod_step(2, 31757755568855353int, 3646346nat, 26727810224327855int, 1, 6850125134734280int);
    lemma_powmod_step(2, 31757755568855353int, 7292693nat, 6850125134734280int, 0, 15162593782735820int);
    lemma_powmod_step(2, 31757755568855353int, 14585386nat, 15162593782735820int, 1, 1774202303731095int);
    lemma_powmod_step(2, 31757755568855353int, 29170773nat, 1774202303731095int, 1, 15759745272380014int);
    lemma_powmod_step(2, 31757755568855353int, 58341547nat, 15759745272380014int, 0, 3528357112347514int);
    lemma_powmod_step(2, 31757755568855353int, 116683094nat, 3528357112347514int, 1, 27804201708358400int);
    lemma_powmod_step(2, 31757755568855353int, 233366189nat, 27804201708358400int, 1, 6457262799572597int);
    lemma_powmod_step(2, 31757755568855353int, 466732379nat, 6457262799572597int, 1, 22985077384138920int);
    lemma_powmod_step(2, 31757755568855353int, 933464759nat, 22985077384138920int, 1, 17615327382811938int);
    lemma_powmod_step(2, 31757755568855353int, 1866929519nat, 17615327382811938int, 0, 3802173547437881int);
    lemma_powmod_step(2, 31757755568855353int, 3733859038nat, 3802173547437881int, 0, 19411888788670543int);
    lemma_powmod_step(2, 31757755568855353int, 7467718076nat, 19411888788670543int, 1, 6488190530109319int);
    lemma_powmod_step(2, 31757755568855353int, 14935436153nat, 6488190530109319int, 0, 12810046850626732int);
    lemma_powmod_step(2, 31757755568855353int, 29870872306nat, 12810046850626732int, 1, 21876378131957297int);
    lemma_powmod_step(2, 31757755568855353int, 59741744613nat, 21876378131957297int, 1, 2780137223264977int);
    lemma_powmod_step(2, 31757755568855353int, 119483489227nat, 2780137223264977int, 1, 30388289836640415int);
    lemma_powmod_step(2, 31757755568855353int, 238966978455nat, 30388289836640415int, 1, 20217410135427290int);
    lemma_powmod_step(2, 31757755568855353int, 477933956911nat, 20217410135427290int, 1, 28912618359719465int);
    lemma_powmod_step(2, 31757755568855353int, 955867913823nat, 28912618359719465int, 0, 2535940127687769int);
    lemma_powmod_step(2, 31757755568855353int, 1911735827646nat, 2535940127687769int, 0, 27240495313969070int);
    lemma_powmod_step(2, 31757755568855353int, 3823471655292nat, 27240495313969070int, 0, 28256283979054930int);
}

/// 31757755568855353 is prime: Pocklington's criterion with a = 2 and the prime factors 430751 and 4153 of n - 1.
proof fn lemma_prime_p31757755568855353()
    ensures
        is_prime(31757755568855353nat),
{
    lemma_prime_p430751();
    lemma_prime_p4153();
    lemma_pow_p31757755568855353_14();
    lemma_pow_p31757755568855353_15();
    lemma_pow_p31757755568855353_16();
    assert forall|f: nat| is_prime(f) && 31757755568855353nat % f == 0 implies #[trigger] ((f - 1) as nat % 1788908903nat) == 0 by {
        lemma_pocklington_factor(31757755568855353nat, 2, 430751nat, 73726481352nat, 15280470251845350nat, 15419847897348699int, (0int - 7419369626816150int), f);
        lemma_pocklington_factor(31757755568855353nat, 2, 4153nat, 7646943310584nat, 28256283979054930nat, (0int - 6640223279662780int), 5908101227987557int, f);
        lemma_two_primes_divide(430751nat, 4153nat, (f - 1) as nat);
    }
    lemma_prime_by_factor(31757755568855353nat, 1788908903nat);
}

proof fn lemma_pow_p74058212732561358302231226437062788676166966415465897661863160754340907_17()
    ensures
        pow(2, 74058212732561358302231226437062788676166966415465897661863160754340906nat) % 74058212732561358302231226437062788676166966415465897661863160754340907int == 1int,
{
    lemma_pow1(2);
    lemma_small_mod(2, 74058212732561358302231226437062788676166966415465897661863160754340907nat);
    lemma_powmod_step(2, 74058212732561358302231226437062788676166966415465897661863160754340907int, 1nat, 2int, 0, 4int);
    lemma_powmod_step(2, 74058212732561358302231226437062788676166966415465897661863160754340907int, 2nat, 4int, 1, 32int);
    lemma_powmod_step(2, 74058212732561358302231226437062788676166966415465897661863160754340907int, 5nat, 32int, 0, 1024int);
    lemma_powmod_step(2, 74058212732561358302231226437062788676166966415465897661863160754340907int, 10nat, 1024int, 1, 2097152int);
    lemma_powmod_step(2, 74058212732561358302231226437062788676166966415465897661863160754340907int, 21nat, 2097152int, 0, 4398046511104int);
    lemma_powmod_step(2, 74058212732561358302231226437062788676166966415465897661863160754340907int, 42nat, 4398046511104int, 1, 38685626227668133590597632int);
    lemma_powmod_step(2, 74058212732561358302231226437062788676166966415465897661863160754340907int, 85nat, 38685626227668133590597632int, 1, 2993155353253689176481146537402947624255349848014848int);
    lemma_powmod_step(2, 74058212732561358302231226437062788676166966415465897661863160754340907int, 171nat, 2993155353253689176481146537402947624255349848014848int, 1, 6189700196426901374495621120int);
    lemma_powmod_step(2, 74058212732561358302231226437062788676166966415465897661863160754340907int, 343nat, 6189700196426901374495621120int, 0, 38312388521647221458958675678757729590468478054590054400int);
    lemma_powmod_step(2, 74058212732561358302231226437062788676166966415465897661863160754340907int, 686nat, 38312388521647221458958675678757729590468478054590054400int, 1, 1014120480182583521197362564300800000int);
    lemma_powmod_step(2, 74058212732561358302231226437062788676166966415465897661863160754340907int, 1373nat, 1014120480182583521197362564300800000int, 0, 65683582802456118417849795416527812824039352619930744988659550193568209int);
    lemma_powmod_step(2, 74058212732561358302231226437062788676166966415465897661863160754340907int, 2746nat, 65683582802456118417849795416527812824039352619930744988659550193568209int, 1, 730750818665451459101842416358141509827966271488000000000000000000000int);
    lemma_powmod_step(2, 74058212732561358302231226437062788676166966415465897661863160754340907int, 5493nat, 730750818665451459101842416358141509827966271488000000000000000000000int, 1, 368934881474191032320000000000000000000000000000000000000000000int);
    lemma_powmod_step(2, 74058212732561358302231226437062788676166966415465897661863160754340907int, 10987nat, 368934881474191032320000000000000000000000000000000000000000000int, 1, 48809625924748483731799561722316200977022350985513074122619159554857188int);
    lemma_powmod_step(2, 74058212732561358302231226437062788676166966415465897661863160754340907int, 21975nat, 48809625924748483731799561722316200977022350985513074122619159554857188int, 1, 67081965265659839634802011309121912357716721342572711216089355881534040int);
    lemma_powmod_step(2, 74058212732561358302231226437062788676166966415465897661863160754340907int, 43951nat, 67081965265659839634802011309121912357716721342572711216089355881534040int, 1, 30154185761289111773970318579344453837419843928642106479836178173134025int);
    lemma_powmod_step(2, 74058212732561358302231226437062788676166966415465897661863160754340907int, 87903nat, 30154185761289111773970318579344453837419843928642106479836178173134025int, 0, 55979714146881556420759296722019659924749169523733696577652506942183612int);
    lemma_powmod_step(2, 74058212732561358302231226437062788676166966415465897661863160754340907int, 175806nat, 55979714146881556420759296722019659924749169523733696577652506942183612int, 0, 40097780151135862601136023226120261922348134251869195310714167864139517int);
    lemma_powmod_step(2, 74058212732561358302231226437062788676166966415465897661863160754340907int, 351612nat, 40097780151135862601136023226120261922348134251869195310714167864139517int, 0, 1210888236669141735186113147451254750685152564225750524109014530828159int);
    lemma_powmod_step(2, 74058212732561358302231226437062788676166966415465897661863160754340907int, 703224nat, 1210888236669141735186113147451254750685152564225750524109014530828159int, 1, 28520090902772294742046987392738656069000542015245104328082450850379498int);
    lemma_powmod_step(2, 74058212732561358302231226437062788676166966415465897661863160754340907int, 1406449nat, 28520090902772294742046987392738656069000542015245104328082450850379498int, 1, 41710527951791149713114816387363791986883722089053417275356928181184019int);
    lemma_powmod_step(2, 74058212732561358302231226437062788676166966415465897661863160754340907int, 2812899nat, 41710527951791149713114816387363791986883722089053417275356928181184019int, 0, 34746133445292654476404191408099243906648796514322579982377258539870059int);
    lemma_powmod_step(2, 74058212732561358302231226437062788676166966415465897661863160754340907int, 5625798nat, 34746133445292654476404191408099243906648796514322579982377258539870059int, 0, 37168282550746136069562020480225900979641675608676994072986479886278668int);
    lemma_powmod_step(2, 74058212732561358302231226437062788676166966415465897661863160754340907int, 11251596nat, 37168282550746136069562020480225900979641675608676994072986479886278668int, 0, 30180817980606422945931729257869200279483962493746904484364669768483774int);
    lemma_powmod_step(2, 74058212732561358302231226437062788676166966415465897661863160754340907int, 22503192nat, 30180817980606422945931729257869200279483962493746904484364669768483774int, 1, 49776262735654995675949713078166983576478491690678278633806933354019677int);
    lemma_powmod_step(2, 74058212732561358302231226437062788676166966415465897661863160754340907int, 45006385nat, 49776262735654995675949713078166983576478491690678278633806933354019677int, 1, 31511304206676897539353435348422870797651826956634285735201501264206745int);
    lemma_powmod_step(2, 74058212732561358302231226437062788676166966415465897661863160754340907int, 90012771nat, 31511304206676897539353435348422870797651826956634285735201501264206745int, 0, 27071408473785301719267339466455760447765971657451334478969063010779896int);
    lemma_powmod_step(2, 74058212732561358302231226437062788676166966415465897661863160754340907int, 180025542nat, 27071408473785301719267339466455760447765971657451334478969063010779896int, 1, 24391468614948384584822873476414723340324948636000652721214898110073068int);
    lemma_powmod_step(2, 74058212732561358302231226437062788676166966415465897661863160754340907int, 360051085nat, 24391468614948384584822873476414723340324948636000652721214898110073068int, 0, 67991436203480062011377816698281207040786449478338401343544614655691755int);
    lemma_powmod_step(2, 74058212732561358302231226437062788676166966415465897661863160754340907int, 720102170nat, 67991436203480062011377816698281207040786449478338401343544614655691755int, 1, 880828378382020692075198874285136798836540666071079671388607397272043int);
    lemma_powmod_step(2, 74058212732561358302231226437062788676166966415465897661863160754340907int, 1440204341nat, 880828378382020692075198874285136798836540666071079671388607397272043int, 1, 22906709256919254590005944459787451047742989873516294463124058323720605int);
    lemma_powmod_step(2, 74058212732561358302231226437062788676166966415465897661863160754340907int, 2880408683nat, 22906709256919254590005944459787451047742989873516294463124058323720605int, 0, 71193885456389275711222123659939371302120480839112041332913070883067580int);
    lemma_powmod_step(2, 74058212732561358302231226437062788676166966415465897661863160754340907int, 5760817366nat, 71193885456389275711222123659939371302120480839112041332913070883067580int, 0, 29596813727301841531266856669040513952004016718050767059676957224782117int);
    lemma_powmod_step(2, 74058212732561358302231226437062788676166966415465897661863160754340907int, 11521634732nat, 29596813727301841531266856669040513952004016718050767059676957224782117int, 0, 60136936040100778026256873057448037088452343450894865905279539052584822int);
    lemma_powmod_step(2, 74058212732561358302231226437062788676166966415465897661863160754340907int, 23043269464nat, 60136936040100778026256873057448037088452343450894865905279539052584822int, 0, 52248726147229723934982818896812307170100359754709075293969653677347451int);
    lemma_powmod_step(2, 74058212732561358302231226437062788676166966415465897661863160754340907int, 46086538928nat, 52248726147229723934982818896812307170100359754709075293969653677347451int, 1, 5841746583726320904423855299782584688288008460993874986493030346258093int);
    lemma_powmod_step(2, 74058212732561358302231226437062788676166966415465897661863160754340907int, 92173077857nat, 5841746583726320904423855299782584688288008460993874986493030346258093int, 0, 61225978126980705145234224568666104933462598634206971520310012109031865int);
    lemma_powmod_step(2, 74058212732561358302231226437062788676166966415465897661863160754340907int, 184346155714nat, 61225978126980705145234224568666104933462598634206971520310012109031865int, 0, 65844596459662995620483832892725162873656939931473157843798725246728644int);
    lemma_powmod_step(2, 74058212732561358302231226437062788676166966415465897661863160754340907int, 368692311428nat, 65844596459662995620483832892725162873656939931473157843798725246728644int, 1, 20269069502620816045826404259086698194222588945148611863458302620283591int);
    lemma_powmod_step(2, 74058212732561358302231226437062788676166966415465897661863160754340907int, 737384622857nat, 20269069502620816045826404259086698194222588945148611863458302620283591int, 0, 588689268238225880525105826480755253714375946370781501769488228636888int);
    lemma_powmod_step(2, 74058212732561358302231226437062788676166966415465897661863160754340907int, 1474769245714nat, 588689268238225880525105826480755253714375946370781501769488228636888int, 1, 54208291038285986846608731172563448427404381397389132408824583907210179int);
    lemma_powmod_step(2, 74058212732561358302231226437062788676166966415465897661863160754340907int, 2949538491429nat, 54208291038285986846608731172563448427404381397389132408824583907210179int, 0, 1903373312369808671736401335508154227937402110727764556046729759347025int);
    lemma_powmod_step(2, 74058212732561358302231226437062788676166966415465897661863160754340907int, 5899076982858nat, 1903373312369808671736401335508154227937402110727764556046729759347025int, 0, 38744820234148713509762808072501451283394866837178441210523335723646019int);
    lemma_powmod_step(2, 74058212732561358302231226437062788676166966415465897661863160754340907int, 11798153965716nat, 38744820234148713509762808072501451283394866837178441210523335723646019int, 1, 37798037297565389228397042573846662626704094872312706911312376803148149int);
    lemma_powmod_step(2, 74058212732561358302231226437062788676166966415465897661863160754340907int, 23596307931433nat, 37798037297565389228397042573846662626704094872312706911312376803148149int, 1, 25891268270107415469466517377151780355649291799369648101454552092294226int);
    lemma_powmod_step(2, 74058212732561358302231226437062788676166966415465897661863160754340907int, 47192615862867nat, 25891268270107415469466517377151780355649291799369648101454552092294226int, 1, 15908287438488163818480650177431493194381694457278569326087031910745765int);
    lemma_powmod_step(2, 74058212732561358302231226437062788676166966415465897661863160754340907int, 94385231725735nat, 15908287438488163818480650177431493194381694457278569326087031910745765int, 1, 40729185305644356602471113997308306873711468525915510672642752299754772int);
    lemma_powmod_step(2, 74058212732561358302231226437062788676166966415465897661863160754340907int, 188770463451471nat, 40729185305644356602471113997308306873711468525915510672642752299754772int, 1, 6795530159490208196831931101530331812181693444406796752822567498436894int);
    lemma_powmod_step(2, 74058212732561358302231226437062788676166966415465897661863160754340907int, 377540926902943nat, 6795530159490208196831931101530331812181693444406796752822567498436894int, 1, 55802762359278333881226989276906773914815768748406544547543072971166882int);
    lemma_powmod_step(2, 74058212732561358302231226437062788676166966415465897661863160754340907int, 755081853805887nat, 55802762359278333881226989276906773914815768748406544547543072971166882int, 0, 1663190257379797455312707478216743777890029539443109098327944890842994int);
    lemma_powmod_step(2, 74058212732561358302231226437062788676166966415465897661863160754340907int, 1510163707611774nat, 1663190257379797455312707478216743777890029539443109098327944890842994int, 1, 14162800904931526615012748995142333227296089548240445547911808167136851int);
    lemma_powmod_step(2, 74058212732561358302231226437062788676166966415465897661863160754340907int, 3020327415223549nat, 14162800904931526615012748995142333227296089548240445547911808167136851int, 0, 57211532943859799763179490378765801052502680223075031480627305988338353int);
    lemma_powmod_step(2, 74058212732561358302231226437062788676166966415465897661863160754340907int, 6040654830447098nat, 57211532943859799763179490378765801052502680223075031480627305988338353int, 0, 72907279837916971497300275126577552617498010984657512108897279730983143int);
    lemma_powmod_step(2, 74058212732561358302231226437062788676166966415465897661863160754340907int, 12081309660894196nat, 72907279837916971497300275126577552617498010984657512108897279730983143int, 0, 32328679742323808219068828510519929470394330636680182913290076587779993int);
    lemma_powmod_step(2, 74058212732561358302231226437062788676166966415465897661863160754340907int, 24162619321788392nat, 32328679742323808219068828510519929470394330636680182913290076587779993int, 0, 69154356490087322061631554050411007707958335379094549133504182966678803int);
    lemma_powmod_step(2, 74058212732561358302231226437062788676166966415465897661863160754340907int, 48325238643576784nat, 69154356490087322061631554050411007707958335379094549133504182966678803int, 1, 18402770134385423725185354813800355047402070047756377956366356666067789int);
    lemma_powmod_step(2, 74058212732561358302231226437062788676166966415465897661863160754340907int, 96650477287153569nat, 18402770134385423725185354813800355047402070047756377956366356666067789int, 1, 42126851920915005625171105633964786856854733728541705473121395271638819int);
    lemma_powmod_step(2, 74058212732561358302231226437062788676166966415465897661863160754340907int, 193300954574307139nat, 42126851920915005625171105633964786856854733728541705473121395271638819int, 1, 69857631736146941638172888169435319112487008579276313494290372736436297int);
    lemma_powmod_step(2, 74058212732561358302231226437062788676166966415465897661863160754340907int, 386601909148614279nat, 69857631736146941638172888169435319112487008579276313494290372736436297int, 1, 54971131539354450080167780782426534409394490757801049490480321068567416int);
    lemma_powmod_step(2, 74058212732561358302231226437062788676166966415465897661863160754340907int, 773203818297228559nat, 54971131539354450080167780782426534409394490757801049490480321068567416int, 0, 66585474824006023019233591479211333526341719200781927828928736390307684int);
    lemma_powmod_step(2, 74058212732561358302231226437062788676166966415465897661863160754340907int, 1546407636594457118nat, 66585474824006023019233591479211333526341719200781927828928736390307684int, 0, 64974567623958624928939173270096282043509708696028124184384972742715339int);
    lemma_powmod_step(2, 74058212732561358302231226437062788676166966415465897661863160754340907int, 3092815273188914236nat, 64974567623958624928939173270096282043509708696028124184384972742715339int, 1, 45143829606920028129673909172889586166806093048832988822411433993803484int);
    lemma_powmod_step(2, 74058212732561358302231226437062788676166966415465897661863160754340907int, 6185630546377828473nat, 45143829606920028129673909172889586166806093048832988822411433993803484int, 1, 26596996121627577852081410249423876413661278861323620857775274184563172int);
    lemma_powmod_step(2, 74058212732561358302231226437062788676166966415465897661863160754340907int, 12371261092755656947nat, 26596996121627577852081410249423876413661278861323620857775274184563172int, 0, 5169004220268844479662039395953943080061671322545161257583638790714313int);
    lemma_powmod_step(2, 74058212732561358302231226437062788676166966415465897661863160754340907int, 24742522185511313894nat, 5169004220268844479662039395953943080061671322545161257583638790714313int, 0, 26426925306653506511956028880989540477808333972575967220542133529248789int);
    lemma_powmod_step(2, 74058212732561358302231226437062788676166966415465897661863160754340907int, 49485044371022627788nat, 26426925306653506511956028880989540477808333972575967220542133529248789int, 1, 69686016781411071573556506425205506628386200024346879272626804513791440int);
    lemma_powmod_step(2, 74058212732561358302231226437062788676166966415465897661863160754340907int, 98970088742045255577nat, 69686016781411071573556506425205506628386200024346879272626804513791440int, 0, 14842155056088000237117729575040584202820008981654614719133426552476499int);
    lemma_powmod_step(2, 74058212732561358302231226437062788676166966415465897661863160754340907int, 197940177484090511154nat, 14842155056088000237117729575040584202820008981654614719133426552476499int, 1, 27378136373781835887380960678823690592405020921155290137443961352018640int);
    lemma_powmod_step(2, 74058212732561358302231226437062788676166966415465897661863160754340907int, 395880354968181022309nat, 27378136373781835887380960678823690592405020921155290137443961352018640int, 1, 73897920342445066099554659736840845329445322776616809871444763037765744int);
    lemma_powmod_step(2, 74058212732561358302231226437062788676166966415465897661863160754340907int, 791760709936362044619nat, 73897920342445066099554659736840845329445322776616809871444763037765744int, 0, 11507059938801480943257649702941781109380472083653630088630755694121351int);
    lemma_powmod_step(2, 74058212732561358302231226437062788676166966415465897661863160754340907int, 1583521419872724089238nat, 11507059938801480943257649702941781109380472083653630088630755694121351int, 0, 11575481651535816289095526060707621436894830536713696523528230942505061int);
    lemma_powmod_step(2, 74058212732561358302231226437062788676166966415465897661863160754340907int, 3167042839745448178476nat, 11575481651535816289095526060707621436894830536713696523528230942505061int, 0, 73160989648500722026522734601311851100744409331112055870209121313041807int);
    lemma_powmod_step(2, 74058212732561358302231226437062788676166966415465897661863160754340907int, 6334085679490896356952nat, 73160989648500722026522734601311851100744409331112055870209121313041807int, 0, 19677919667653376163205777550172168859062839113855364850020142752759023int);
    lemma_powmod_step(2, 74058212732561358302231226437062788676166966415465897661863160754340907int, 12668171358981792713904nat, 19677919667653376163205777550172168859062839113855364850020142752759023int, 1, 61493201761240616122836949448005318528848131214881558422131556686209486int);
    lemma_powmod_step(2, 74058212732561358302231226437062788676166966415465897661863160754340907int, 25336342717963585427809nat, 61493201761240616122836949448005318528848131214881558422131556686209486int, 0, 66895820984520153930884558881655022791892265993191813421871458899047065int);
    lemma_powmod_step(2, 74058212732561358302231226437062788676166966415465897661863160754340907int, 50672685435927170855618nat, 66895820984520153930884558881655022791892265993191813421871458899047065int, 1, 41646374919127363639626962706346082991126921242761601502463380192724854int);
    lemma_powmod_step(2, 74058212732561358302231226437062788676166966415465897661863160754340907int, 101345370871854341711237nat, 41646374919127363639626962706346082991126921242761601502463380192724854int, 1, 63771197083703303638928520175010618730578834685447334638218992541887651int);
    lemma_powmod_step(2, 74058212732561358302231226437062788676166966415465897661863160754340907int, 202690741743708683422475nat, 63771197083703303638928520175010618730578834685447334638218992541887651int, 0, 4344743331522370801808607581166885845277142061742932513297732830927437int);
    lemma_powmod_step(2, 74058212732561358302231226437062788676166966415465897661863160754340907int, 405381483487417366844950nat, 4344743331522370801808607581166885845277142061742932513297732830927437int, 0, 42504708377583645764111761142422646144110649251708338747683099104293966int);
    lemma_powmod_step(2, 74058212732561358302231226437062788676166966415465897661863160754340907int, 810762966974834733689900nat, 42504708377583645764111761142422646144110649251708338747683099104293966int, 1, 24043902206389682617894133330407712169336764096622551039823516468113324int);
    lemma_powmod_step(2, 74058212732561358302231226437062788676166966415465897661863160754340907int, 1621525933949669467379801nat, 24043902206389682617894133330407712169336764096622551039823516468113324int, 1, 17278778333687914028586444848967849751467247669258324457566774517906953int);
    lemma_powmod_step(2, 74058212732561358302231226437062788676166966415465897661863160754340907int, 3243051867899338934759603nat, 17278778333687914028586444848967849751467247669258324457566774517906953int, 0, 60233265726770213189450582006011692329433240180509170371870873245472992int);
    lemma_powmod_step(2, 74058212732561358302231226437062788676166966415465897661863160754340907int, 6486103735798677869519206nat, 60233265726770213189450582006011692329433240180509170371870873245472992int, 0, 60820270238998972862249066232796158277396963384580032146982953048062766int);
    lemma_powmod_step(2, 74058212732561358302231226437062788676166966415465897661863160754340907int, 12972207471597355739038412nat, 60820270238998972862249066232796158277396963384580032146982953048062766int, 1, 70640098909694273413588329749586013261595645984561894855608650190145624int);
    lemma_powmod_step(2, 74058212732561358302231226437062788676166966415465897661863160754340907int, 25944414943194711478076825nat, 70640098909694273413588329749586013261595645984561894855608650190145624int, 0, 4406678748180705506302781773185306899880917534396269136478702088416024int);
    lemma_powmod_step(2, 74058212732561358302231226437062788676166966415465897661863160754340907int, 51888829886389422956153650nat, 4406678748180705506302781773185306899880917534396269136478702088416024int, 1, 56180952915245190993788456698826427684794825039644019230068422759402163int);
    lemma_powmod_step(2, 74058212732561358302231226437062788676166966415465897661863160754340907int, 103777659772778845912307301nat, 56180952915245190993788456698826427684794825039644019230068422759402163int, 0, 51664660411505319543700658924188458532239555282771118362962258462712369int);
    lemma_powmod_step(2, 74058212732561358302231226437062788676166966415465897661863160754340907int, 207555319545557691824614602nat, 51664660411505319543700658924188458532239555282771118362962258462712369int, 1, 1685424981771679104233551395510540837314303998250209591721423681214907int);
    lemma_powmod_step(2, 74058212732561358302231226437062788676166966415465897661863160754340907int, 415110639091115383649229205nat, 1685424981771679104233551395510540837314303998250209591721423681214907int, 0, 12334987667742760053084921955351810396442917290110794341299433164318354int);
    lemma_powmod_step(2, 74058212732561358302231226437062788676166966415465897661863160754340907int, 830221278182230767298458410nat, 12334987667742760053084921955351810396442917290110794341299433164318354int, 1, 31304862361337566926401003864563934971240609838502601234876602998735002int);
    lemma_powmod_step(2, 74058212732561358302231226437062788676166966415465897661863160754340907int, 1660442556364461534596916821nat, 31304862361337566926401003864563934971240609838502601234876602998735002int, 1, 67188599152476500874689596276645233373323937881120211430759801642197975int);
    lemma_powmod_step(2, 74058212732561358302231226437062788676166966415465897661863160754340907int, 3320885112728923069193833643nat, 67188599152476500874689596276645233373323937881120211430759801642197975int, 1, 1724346344410183833957087761184970646040264191300951389144386291922384int);
    lemma_powmod_step(2, 74058212732561358302231226437062788676166966415465897661863160754340907int, 6641770225457846138387667287nat, 1724346344410183833957087761184970646040264191300951389144386291922384int, 0, 33984562432935311328468307985087061856833307323228393623644465611799241int);
    lemma_powmod_step(2, 74058212732561358302231226437062788676166966415465897661863160754340907int, 13283540450915692276775334574nat, 33984562432935311328468307985087061856833307323228393623644465611799241int, 1, 43359525697595373534492882811674932240875324754652609195426505430491031int);
    lemma_powmod_step(2, 74058212732561358302231226437062788676166966415465897661863160754340907int, 26567080901831384553550669149nat, 43359525697595373534492882811674932240875324754652609195426505430491031int, 0, 47187004159082483081724448004954366680502756479244549016220283315417252int);
    lemma_powmod_step(2, 74058212732561358302231226437062788676166966415465897661863160754340907int, 53134161803662769107101338298nat, 47187004159082483081724448004954366680502756479244549016220283315417252int, 1, 12847847765631538722781430775144455135845590792712512921539177732557038int);
    lemma_powmod_step(2, 74058212732561358302231226437062788676166966415465897661863160754340907int, 106268323607325538214202676597nat, 12847847765631538722781430775144455135845590792712512921539177732557038int, 0, 41526555005473071820040659994934019140970310808736237868957761713670894int);
    lemma_powmod_step(2, 74058212732561358302231226437062788676166966415465897661863160754340907int, 212536647214651076428405353194nat, 41526555005473071820040659994934019140970310808736237868957761713670894int, 1, 17601061033416049584635823575318794839593260508838009914252889816042965int);
    lemma_powmod_step(2, 74058212732561358302231226437062788676166966415465897661863160754340907int, 425073294429302152856810706389nat, 17601061033416049584635823575318794839593260508838009914252889816042965int, 1, 33035755916368915456977716356087298747415237788201918946351394874405056int);
    lemma_powmod_step(2, 74058212732561358302231226437062788676166966415465897661863160754340907int, 850146588858604305713621412779nat, 33035755916368915456977716356087298747415237788201918946351394874405056int, 1, 34608180838089270840823085441893908061873628475607798697337812744149373int);
    lemma_powmod_step(2, 74058212732561358302231226437062788676166966415465897661863160754340907int, 1700293177717208611427242825559nat, 34608180838089270840823085441893908061873628475607798697337812744149373int, 0, 6522968632259737771027378940987292260324457273851785467142686378390074int);
    lemma_powmod_step(2, 74058212732561358302231226437062788676166966415465897661863160754340907int, 3400586355434417222854485651118nat, 6522968632259737771027378940987292260324457273851785467142686378390074int, 0, 49421921693561797025135452013156968248492409362363954542714533127125749int);
    lemma_powmod_step(2, 74058212732561358302231226437062788676166966415465897661863160754340907int, 6801172710868834445708971302236nat, 49421921693561797025135452013156968248492409362363954542714533127125749int, 0, 3719270902293315676913879590351825470894680919292685433305143824936076int);
    lemma_powmod_step(2, 74058212732561358302231226437062788676166966415465897661863160754340907int, 13602345421737668891417942604472nat, 3719270902293315676913879590351825470894680919292685433305143824936076int, 0, 26872085030823407601232587488278887734386583979467138670025759685410092int);
    lemma_powmod_step(2, 74058212732561358302231226437062788676166966415465897661863160754340907int, 27204690843475337782835885208944nat, 26872085030823407601232587488278887734386583979467138670025759685410092int, 1, 20797523938062385107636473558487426179008764296274767909801124011783029int);
    lemma_powmod_step(2, 74058212732561358302231226437062788676166966415465897661863160754340907int, 54409381686950675565671770417889nat, 20797523938062385107636473558487426179008764296274767909801124011783029int, 1, 53949796156249671765111839220045754263671811973865112270055265422392251int);
    lemma_powmod_step(2, 74058212732561358302231226437062788676166966415465897661863160754340907int, 108818763373901351131343540835779nat, 53949796156249671765111839220045754263671811973865112270055265422392251int, 0, 44155466570178235231746793219378044927823704343159774808887758215542927int);
    lemma_powmod_step(2, 74058212732561358302231226437062788676166966415465897661863160754340907int, 217637526747802702262687081671558nat, 44155466570178235231746793219378044927823704343159774808887758215542927int, 0, 67541925131790651374026940477084915069041771127582919051088165281513101int);
    lemma_powmod_step(2, 74058212732561358302231226437062788676166966415465897661863160754340907int, 435275053495605404525374163343116nat, 67541925131790651374026940477084915069041771127582919051088165281513101int, 1, 63655470315081472835443801685947839736590627812400790976250357204726158int);
    lemma_powmod_step(2, 74058212732561358302231226437062788676166966415465897661863160754340907int, 870550106991210809050748326686233nat, 63655470315081472835443801685947839736590627812400790976250357204726158int, 0, 59032841656826355744827068436173139724069086490056196771956619759763974int);
    lemma_powmod_step(2, 74058212732561358302231226437062788676166966415465897661863160754340907int, 1741100213982421618101496653372466nat, 59032841656826355744827068436173139724069086490056196771956619759763974int, 0, 17003456201910042268455537999865231696299265181341204739845810598466060int);
    lemma_powmod_step(2, 74058212732561358302231226437062788676166966415465897661863160754340907int, 3482200427964843236202993306744932nat, 17003456201910042268455537999865231696299265181341204739845810598466060int, 1, 11307252466868823978123244758450966712904123045199138913613301800191810int);
    lemma_powmod_step(2, 74058212732561358302231226437062788676166966415465897661863160754340907int, 6964400855929686472405986613489865nat, 11307252466868823978123244758450966712904123045199138913613301800191810int, 1, 39731388950274938964332675378663441351547410625853272247101306710074844int);
    lemma_powmod_step(2, 74058212732561358302231226437062788676166966415465897661863160754340907int, 13928801711859372944811973226979731nat, 39731388950274938964332675378663441351547410625853272247101306710074844int, 0, 22210738863175814643719246656298956898501988172999921136982108629496366int);
    lemma_powmod_step(2, 74058212732561358302231226437062788676166966415465897661863160754340907int, 27857603423718745889623946453959462nat, 22210738863175814643719246656298956898501988172999921136982108629496366int, 1, 12555930738284717605221800068936190903814989045768415641056879114432420int);
    lemma_powmod_step(2, 74058212732561358302231226437062788676166966415465897661863160754340907int, 55715206847437491779247892907918925nat, 12555930738284717605221800068936190903814989045768415641056879114432420int, 1, 53738843327677809785806468536116422374192007739281846609530456909017760int);
    lemma_powmod_step(2, 74058212732561358302231226437062788676166966415465897661863160754340907int, 111430413694874983558495785815837851nat, 53738843327677809785806468536116422374192007739281846609530456909017760int, 0, 27485025906527658478771401216277066778545321415554191951216502935589421int);
    lemma_powmod_step(2, 74058212732561358302231226437062788676166966415465897661863160754340907int, 222860827389749967116991571631675702nat, 27485025906527658478771401216277066778545321415554191951216502935589421int, 1, 29380218613773937568925503763498610646666484153405066650971161851152576int);
    lemma_powmod_step(2, 74058212732561358302231226437062788676166966415465897661863160754340907int, 445721654779499934233983143263351405nat, 29380218613773937568925503763498610646666484153405066650971161851152576int, 1, 72885410000590038761575123319085450629785042909541386059367062320234100int);
    lemma_powmod_step(2, 74058212732561358302231226437062788676166966415465897661863160754340907int, 891443309558999868467966286526702811nat, 72885410000590038761575123319085450629785042909541386059367062320234100int, 1, 25137699770428729501672369570826265739588416154349410591076020429900905int);
    lemma_powmod_step(2, 74058212732561358302231226437062788676166966415465897661863160754340907int, 1782886619117999736935932573053405623nat, 25137699770428729501672369570826265739588416154349410591076020429900905int, 1, 61060179921610788803594550077734425072989128526755825234331654906192656int);
    lemma_powmod_step(2, 74058212732561358302231226437062788676166966415465897661863160754340907int, 3565773238235999473871865146106811247nat, 61060179921610788803594550077734425072989128526755825234331654906192656int, 1, 43224207947713978688801966697801691685727988192724080544956128506481998int);
    lemma_powmod_step(2, 74058212732561358302231226437062788676166966415465897661863160754340907int, 7131546476471998947743730292213622495nat, 43224207947713978688801966697801691685727988192724080544956128506481998int, 0, 43610344547510440350454762450190574342242188659447340553401182612182951int);
    lemma_powmod_step(2, 74058212732561358302231226437062788676166966415465897661863160754340907int, 14263092952943997895487460584427244990nat, 43610344547510440350454762450190574342242188659447340553401182612182951int, 1, 60770911049761636692668892298401719223478869677737745221485788311135007int);
    lemma_powmod_step(2, 74058212732561358302231226437062788676166966415465897661863160754340907int, 28526185905887995790974921168854489981nat, 60770911049761636692668892298401719223478869677737745221485788311135007int, 1, 4173928215597823069758775732405228258212734161951505802098802423375527int);
    lemma_powmod_step(2, 74058212732561358302231226437062788676166966415465897661863160754340907int, 57052371811775991581949842337708979963nat, 4173928215597823069758775732405228258212734161951505802098802423375527int, 0, 46175009929261682961633605127717391311692518097554279897886990305653922int);
    lemma_powmod_step(2, 74058212732561358302231226437062788676166966415465897661863160754340907int, 114104743623551983163899684675417959926nat, 46175009929261682961633605127717391311692518097554279897886990305653922int, 0, 66267797832674393404470501047122165242061726151100426696985814639426464int);
    lemma_powmod_step(2, 74058212732561358302231226437062788676166966415465897661863160754340907int, 228209487247103966327799369350835919852nat, 66267797832674393404470501047122165242061726151100426696985814639426464int, 1, 39420382232380275937187141601225203597660591858650231537001623207997713int);
    lemma_powmod_step(2, 74058212732561358302231226437062788676166966415465897661863160754340907int, 456418974494207932655598738701671839705nat, 39420382232380275937187141601225203597660591858650231537001623207997713int, 1, 48257209805730229101842072778521561073615999246804312603900098795329626int);
    lemma_powmod_step(2, 74058212732561358302231226437062788676166966415465897661863160754340907int, 912837948988415865311197477403343679411nat, 48257209805730229101842072778521561073615999246804312603900098795329626int, 0, 67100145689033418875040802211365771840091768724170831836868256562037633int);
    lemma_powmod_step(2, 74058212732561358302231226437062788676166966415465897661863160754340907int, 1825675897976831730622394954806687358822nat, 67100145689033418875040802211365771840091768724170831836868256562037633int, 1, 31883895717314731501400458372106407226583725821538212481175137996463031int);
    lemma_powmod_step(2, 74058212732561358302231226437062788676166966415465897661863160754340907int, 3651351795953663461244789909613374717645nat, 31883895717314731501400458372106407226583725821538212481175137996463031int, 1, 65572332690103799341317212542260920768975289175863125890785358285206963int);
    lemma_powmod_step(2, 74058212732561358302231226437062788676166966415465897661863160754340907int, 7302703591907326922489579819226749435291nat, 65572332690103799341317212542260920768975289175863125890785358285206963int, 0, 60202360900183063175843834734374262996203530227822534885432731629304074int);
    lemma_powmod_step(2, 74058212732561358302231226437062788676166966415465897661863160754340907int, 14605407183814653844979159638453498870582nat, 60202360900183063175843834734374262996203530227822534885432731629304074int, 0, 30873770386263388028027379186981350911836767754537063046821661250767769int);
    lemma_powmod_step(2, 74058212732561358302231226437062788676166966415465897661863160754340907int, 29210814367629307689958319276906997741164nat, 30873770386263388028027379186981350911836767754537063046821661250767769int, 1, 19511929459557011745494177265406429735818009226034392658299692625787902int);
    lemma_powmod_step(2, 74058212732561358302231226437062788676166966415465897661863160754340907int, 58421628735258615379916638553813995482329nat, 19511929459557011745494177265406429735818009226034392658299692625787902int, 1, 28664853416633696533245297446176271618923221953557438452339769167394877int);
    lemma_powmod_step(2, 74058212732561358302231226437062788676166966415465897661863160754340907int, 116843257470517230759833277107627990964659nat, 28664853416633696533245297446176271618923221953557438452339769167394877int, 0, 50083665339571999901453157528322324678974241789743124432037324051236372int);
    lemma_powmod_step(2, 74058212732561358302231226437062788676166966415465897661863160754340907int, 233686514941034461519666554215255981929318nat, 50083665339571999901453157528322324678974241789743124432037324051236372int, 0, 54420459838678711313062262204705926895975264192147026698902892135901386int);
    lemma_powmod_step(2, 74058212732561358302231226437062788676166966415465897661863160754340907int, 467373029882068923039333108430511963858636nat, 54420459838678711313062262204705926895975264192147026698902892135901386int, 1, 66831750851970837154095734385505919531577486724420426262193317037561616int);
    lemma_powmod_step(2, 74058212732561358302231226437062788676166966415465897661863160754340907int, 934746059764137846078666216861023927717273nat, 66831750851970837154095734385505919531577486724420426262193317037561616int, 0, 60993710531500889557467619745590608863780307348793147209901009480230530int);
    lemma_powmod_step(2, 74058212732561358302231226437062788676166966415465897661863160754340907int, 1869492119528275692157332433722047855434546nat, 60993710531500889557467619745590608863780307348793147209901009480230530int, 0, 25312200468660705119087111941185186638056780823555767023019320167489517int);
    lemma_powmod_step(2, 74058212732561358302231226437062788676166966415465897661863160754340907int, 3738984239056551384314664867444095710869092nat, 25312200468660705119087111941185186638056780823555767023019320167489517int, 0, 1632428298284055903792939127788568055920755048753152468010304533914582int);
    lemma_powmod_step(2, 74058212732561358302231226437062788676166966415465897661863160754340907int, 7477968478113102768629329734888191421738184nat, 1632428298284055903792939127788568055920755048753152468010304533914582int, 1, 37100738299146412317848671375362022295887528214199392353262721383728065int);
    lemma_powmod_step(2, 74058212732561358302231226437062788676166966415465897661863160754340907int, 14955936956226205537258659469776382843476369nat, 37100738299146412317848671375362022295887528214199392353262721383728065int, 0, 12053259378776376607547404775574758213399343703264929587730561021082929int);
    lemma_powmod_step(2, 74058212732561358302231226437062788676166966415465897661863160754340907int, 29911873912452411074517318939552765686952738nat, 12053259378776376607547404775574758213399343703264929587730561021082929int, 1, 12106181457794696123156400140310079588551317081658839873916479016909123int);
    lemma_powmod_step(2, 74058212732561358302231226437062788676166966415465897661863160754340907int, 59823747824904822149034637879105531373905477nat, 12106181457794696123156400140310079588551317081658839873916479016909123int, 0, 50158997052850196156263669520171797259540197777147100756465453687215233int);
    lemma_powmod_step(2, 74058212732561358302231226437062788676166966415465897661863160754340907int, 119647495649809644298069275758211062747810954nat, 50158997052850196156263669520171797259540197777147100756465453687215233int, 0, 36933310750005739049702850162572125534446707461127682936868669050864455int);
    lemma_powmod_step(2, 74058212732561358302231226437062788676166966415465897661863160754340907int, 239294991299619288596138551516422125495621908nat, 36933310750005739049702850162572125534446707461127682936868669050864455int, 0, 30670870238916976211998749522309455782502670038340511423624669056570765int);
    lemma_powmod_step(2, 74058212732561358302231226437062788676166966415465897661863160754340907int, 478589982599238577192277103032844250991243816nat, 30670870238916976211998749522309455782502670038340511423624669056570765int, 1, 38830790641689920261660618126621514298733780334227306558172466746311884int);
    lemma_powmod_step(2, 74058212732561358302231226437062788676166966415465897661863160754340907int, 957179965198477154384554206065688501982487633nat, 38830790641689920261660618126621514298733780334227306558172466746311884int, 0, 60573575090487335294681566312639857066368736642309426361150524413278150int);
    lemma_powmod_step(2, 74058212732561358302231226437062788676166966415465897661863160754340907int, 1914359930396954308769108412131377003964975266nat, 60573575090487335294681566312639857066368736642309426361150524413278150int, 0, 58047558531492412171294509217981555140488985426678404435591087269144943int);
    lemma_powmod_step(2, 74058212732561358302231226437062788676166966415465897661863160754340907int, 3828719860793908617538216824262754007929950532nat, 58047558531492412171294509217981555140488985426678404435591087269144943int, 0, 71956345811095097043018662016819458469228319029010456966087001273248385int);
    lemma_powmod_step(2, 74058212732561358302231226437062788676166966415465897661863160754340907int, 7657439721587817235076433648525508015859901064nat, 71956345811095097043018662016819458469228319029010456966087001273248385int, 1, 31516048918991027863909765562476480797649995385598915766609042375677576int);
    lemma_powmod_step(2, 74058212732561358302231226437062788676166966415465897661863160754340907int, 15314879443175634470152867297051016031719802129nat, 31516048918991027863909765562476480797649995385598915766609042375677576int, 1, 13476776121212525161362788187960532316608594014644863451902338132634034int);
    lemma_powmod_step(2, 74058212732561358302231226437062788676166966415465897661863160754340907int, 30629758886351268940305734594102032063439604259nat, 13476776121212525161362788187960532316608594014644863451902338132634034int, 0, 59307343457309437952483864704741626739534987323867616797677467804255297int);
    lemma_powmod_step(2, 74058212732561358302231226437062788676166966415465897661863160754340907int, 61259517772702537880611469188204064126879208518nat, 59307343457309437952483864704741626739534987323867616797677467804255297int, 0, 48683791108696266531568100622383771238941977176667262092147205792383487int);
    lemma_powmod_step(2, 74058212732561358302231226437062788676166966415465897661863160754340907int, 122519035545405075761222938376408128253758417036nat, 48683791108696266531568100622383771238941977176667262092147205792383487int, 1, 39790635832330873218509457357152036395280887709044957745541660301932550int);
    lemma_powmod_step(2, 74058212732561358302231226437062788676166966415465897661863160754340907int, 245038071090810151522445876752816256507516834073nat, 39790635832330873218509457357152036395280887709044957745541660301932550int, 1, 34479642621743694635577181794735211116616616324950393341850817454579012int);
    lemma_powmod_step(2, 74058212732561358302231226437062788676166966415465897661863160754340907int, 490076142181620303044891753505632513015033668147nat, 34479642621743694635577181794735211116616616324950393341850817454579012int, 1, 38663037850172365383115411625994481092194499770489887536609381660350730int);
    lemma_powmod_step(2, 74058212732561358302231226437062788676166966415465897661863160754340907int, 980152284363240606089783507011265026030067336295nat, 38663037850172365383115411625994481092194499770489887536609381660350730int, 1, 13704275865888149275794676763287620894018348514550168763363331495642365int);
    lemma_powmod_step(2, 74058212732561358302231226437062788676166966415465897661863160754340907int, 1960304568726481212179567014022530052060134672591nat, 13704275865888149275794676763287620894018348514550168763363331495642365int, 0, 13551349414357860249908075916199745209512284495358581550701117881871972int);
    lemma_powmod_step(2, 74058212732561358302231226437062788676166966415465897661863160754340907int, 3920609137452962424359134028045060104120269345182nat, 13551349414357860249908075916199745209512284495358581550701117881871972int, 0, 33932284979406229403113260990952285179991263649839727073381857054604447int);
    lemma_powmod_step(2, 74058212732561358302231226437062788676166966415465897661863160754340907int, 7841218274905924848718268056090120208240538690364nat, 33932284979406229403113260990952285179991263649839727073381857054604447int, 1, 73525767946833325945475388437268047154731489947177759492627783246134641int);
    lemma_powmod_step(2, 74058212732561358302231226437062788676166966415465897661863160754340907int, 15682436549811849697436536112180240416481077380729nat, 73525767946833325945475388437268047154731489947177759492627783246134641int, 1, 43444524791103223440687318752434279504679972593740957081825886919880530int);
    lemma_powmod_step(2, 74058212732561358302231226437062788676166966415465897661863160754340907int, 31364873099623699394873072224360480832962154761459nat, 43444524791103223440687318752434279504679972593740957081825886919880530int, 1, 42913593086873152749705770531607006318314770849854076087203945949484879int);
    lemma_powmod_step(2, 74058212732561358302231226437062788676166966415465897661863160754340907int, 62729746199247398789746144448720961665924309522919nat, 42913593086873152749705770531607006318314770849854076087203945949484879int, 0, 5503157699251386519229540231365925115443018937762161837769708606188504int);
    lemma_powmod_step(2, 74058212732561358302231226437062788676166966415465897661863160754340907int, 125459492398494797579492288897441923331848619045838nat, 5503157699251386519229540231365925115443018937762161837769708606188504int, 0, 64146323121780501790772438873864757920782118009658552924684459276777124int);
    lemma_powmod_step(2, 74058212732561358302231226437062788676166966415465897661863160754340907int, 250918984796989595158984577794883846663697238091676nat, 64146323121780501790772438873864757920782118009658552924684459276777124int, 0, 8448695484825664945238721065649273784968573624098830844940127998223038int);
    lemma_powmod_step(2, 74058212732561358302231226437062788676166966415465897661863160754340907int, 501837969593979190317969155589767693327394476183352nat, 8448695484825664945238721065649273784968573624098830844940127998223038int, 0, 58218842247205537338930168241243444907978151046097012050548003000478744int);
    lemma_powmod_step(2, 74058212732561358302231226437062788676166966415465897661863160754340907int, 1003675939187958380635938311179535386654788952366704nat, 58218842247205537338930168241243444907978151046097012050548003000478744int, 0, 3517868117704116821433767305011249521814711172584470600716643629291622int);
    lemma_powmod_step(2, 74058212732561358302231226437062788676166966415465897661863160754340907int, 2007351878375916761271876622359070773309577904733408nat, 3517868117704116821433767305011249521814711172584470600716643629291622int, 1, 34682534062405588826209638324503698278234708795114633810106470930936182int);
    lemma_powmod_step(2, 74058212732561358302231226437062788676166966415465897661863160754340907int, 4014703756751833522543753244718141546619155809466817nat, 34682534062405588826209638324503698278234708795114633810106470930936182int, 1, 43021845738621842786194280271189811461611913004803748065086384866206387int);
    lemma_powmod_step(2, 74058212732561358302231226437062788676166966415465897661863160754340907int, 8029407513503667045087506489436283093238311618933635nat, 43021845738621842786194280271189811461611913004803748065086384866206387int, 0, 47066334363725288404856629467803093493806134956241335006120413770400017int);
    lemma_powmod_step(2, 74058212732561358302231226437062788676166966415465897661863160754340907int, 16058815027007334090175012978872566186476623237867270nat, 47066334363725288404856629467803093493806134956241335006120413770400017int, 1, 71656034249665291474297382609825600053444359999652331335496169046442906int);
    lemma_powmod_step(2, 74058212732561358302231226437062788676166966415465897661863160754340907int, 32117630054014668180350025957745132372953246475734541nat, 71656034249665291474297382609825600053444359999652331335496169046442906int, 0, 4532302360208299749403241410270928214223685654265822641217187429409695int);
    lemma_powmod_step(2, 74058212732561358302231226437062788676166966415465897661863160754340907int, 64235260108029336360700051915490264745906492951469082nat, 4532302360208299749403241410270928214223685654265822641217187429409695int, 1, 5227283813084482351057592282595757205232929300754167317839829861335865int);
    lemma_powmod_step(2, 74058212732561358302231226437062788676166966415465897661863160754340907int, 128470520216058672721400103830980529491812985902938165nat, 5227283813084482351057592282595757205232929300754167317839829861335865int, 1, 2847114559590946038175189897136983487593681548170783648679622518093081int);
    lemma_powmod_step(2, 74058212732561358302231226437062788676166966415465897661863160754340907int, 256941040432117345442800207661961058983625971805876331nat, 2847114559590946038175189897136983487593681548170783648679622518093081int, 0, 5715366183194059776962833633270066047975495884770259774577830840061086int);
    lemma_powmod_step(2, 74058212732561358302231226437062788676166966415465897661863160754340907int, 513882080864234690885600415323922117967251943611752662nat, 5715366183194059776962833633270066047975495884770259774577830840061086int, 1, 17933614173297055511922295723820007865348816158729258544227326608782242int);
    lemma_powmod_step(2, 74058212732561358302231226437062788676166966415465897661863160754340907int, 1027764161728469381771200830647844235934503887223505325nat, 17933614173297055511922295723820007865348816158729258544227326608782242int, 1, 21301626889227226263625563291793148689220520457389901851489044625094795int);
    lemma_powmod_step(2, 74058212732561358302231226437062788676166966415465897661863160754340907int, 2055528323456938763542401661295688471869007774447010651nat, 21301626889227226263625563291793148689220520457389901851489044625094795int, 1, 70821372087203339451857537476944788478712781340909509991681790223265068int);
    lemma_powmod_step(2, 74058212732561358302231226437062788676166966415465897661863160754340907int, 4111056646913877527084803322591376943738015548894021303nat, 70821372087203339451857537476944788478712781340909509991681790223265068int, 1, 26973529761829739022345561867696200422970490834377115937555646051727577int);
    lemma_powmod_step(2, 74058212732561358302231226437062788676166966415465897661863160754340907int, 8222113293827755054169606645182753887476031097788042607nat, 26973529761829739022345561867696200422970490834377115937555646051727577int, 1, 19665966182876234773894961531385267549563018203118193934856893695544491int);
    lemma_powmod_step(2, 74058212732561358302231226437062788676166966415465897661863160754340907int, 16444226587655510108339213290365507774952062195576085215nat, 19665966182876234773894961531385267549563018203118193934856893695544491int, 1, 52187323999123130187600620080883698994007515539645557825728786292720011int);
    lemma_powmod_step(2, 74058212732561358302231226437062788676166966415465897661863160754340907int, 32888453175311020216678426580731015549904124391152170431nat, 52187323999123130187600620080883698994007515539645557825728786292720011int, 0, 4471128737530873481284777674846266020985451170124038560214503192810970int);
    lemma_powmod_step(2, 74058212732561358302231226437062788676166966415465897661863160754340907int, 65776906350622040433356853161462031099808248782304340862nat, 4471128737530873481284777674846266020985451170124038560214503192810970int, 0, 37922230838219070753528911483387832304133275852565260739553414597853351int);
    lemma_powmod_step(2, 74058212732561358302231226437062788676166966415465897661863160754340907int, 131553812701244080866713706322924062199616497564608681724nat, 37922230838219070753528911483387832304133275852565260739553414597853351int, 0, 11033982827422101398945521420857576080426888604651567781262753533418247int);
    lemma_powmod_step(2, 74058212732561358302231226437062788676166966415465897661863160754340907int, 263107625402488161733427412645848124399232995129217363448nat, 11033982827422101398945521420857576080426888604651567781262753533418247int, 0, 21844806126079074109894001712787690717781434044294229504591652390488481int);
    lemma_powmod_step(2, 74058212732561358302231226437062788676166966415465897661863160754340907int, 526215250804976323466854825291696248798465990258434726896nat, 21844806126079074109894001712787690717781434044294229504591652390488481int, 0, 28910326956718588816415863524541457101931201421019134029175532648499705int);
    lemma_powmod_step(2, 74058212732561358302231226437062788676166966415465897661863160754340907int, 1052430501609952646933709650583392497596931980516869453792nat, 28910326956718588816415863524541457101931201421019134029175532648499705int, 0, 33175761488626935141893194324837008986637658350459085929962373924194622int);
    lemma_powmod_step(2, 74058212732561358302231226437062788676166966415465897661863160754340907int, 2104861003219905293867419301166784995193863961033738907584nat, 33175761488626935141893194324837008986637658350459085929962373924194622int, 0, 67669655054887480815198666427380935079507581610359144013526378706825270int);
    lemma_powmod_step(2, 74058212732561358302231226437062788676166966415465897661863160754340907int, 4209722006439810587734838602333569990387727922067477815168nat, 67669655054887480815198666427380935079507581610359144013526378706825270int, 0, 18573837424811328134602619977051715522890118259630663428463053606937342int);
    lemma_powmod_step(2, 74058212732561358302231226437062788676166966415465897661863160754340907int, 8419444012879621175469677204667139980775455844134955630336nat, 18573837424811328134602619977051715522890118259630663428463053606937342int, 1, 27991669789329847409119017525371437913417746441263231818342528389315852int);
    lemma_powmod_step(2, 74058212732561358302231226437062788676166966415465897661863160754340907int, 16838888025759242350939354409334279961550911688269911260673nat, 27991669789329847409119017525371437913417746441263231818342528389315852int, 0, 24986173978925398832557262649792579047937169125637163149541932638637241int);
    lemma_powmod_step(2, 74058212732561358302231226437062788676166966415465897661863160754340907int, 33677776051518484701878708818668559923101823376539822521346nat, 24986173978925398832557262649792579047937169125637163149541932638637241int, 0, 20900041245058112250503790054780818558090897407947872730601493163990135int);
    lemma_powmod_step(2, 74058212732561358302231226437062788676166966415465897661863160754340907int, 67355552103036969403757417637337119846203646753079645042692nat, 20900041245058112250503790054780818558090897407947872730601493163990135int, 1, 36116959692707414051940197944129288971907897422201316999787947480645151int);
    lemma_powmod_step(2, 74058212732561358302231226437062788676166966415465897661863160754340907int, 134711104206073938807514835274674239692407293506159290085385nat, 36116959692707414051940197944129288971907897422201316999787947480645151int, 0, 69487203005999170773463835168583453754519556391435070454236221678455668int);
    lemma_powmod_step(2, 74058212732561358302231226437062788676166966415465897661863160754340907int, 269422208412147877615029670549348479384814587012318580170770nat, 69487203005999170773463835168583453754519556391435070454236221678455668int, 0, 12507583686202808041695131112942876322562025814023259963167936463746403int);
    lemma_powmod_step(2, 74058212732561358302231226437062788676166966415465897661863160754340907int, 538844416824295755230059341098696958769629174024637160341540nat, 12507583686202808041695131112942876322562025814023259963167936463746403int, 0, 31507824184723945878832113918198168431772766076685992097063750960708349int);
    lemma_powmod_step(2, 74058212732561358302231226437062788676166966415465897661863160754340907int, 1077688833648591510460118682197393917539258348049274320683080nat, 31507824184723945878832113918198168431772766076685992097063750960708349int, 1, 41203322383448585388700040599864801103667270417501808011465282690063060int);
    lemma_powmod_step(2, 74058212732561358302231226437062788676166966415465897661863160754340907int, 2155377667297183020920237364394787835078516696098548641366161nat, 41203322383448585388700040599864801103667270417501808011465282690063060int, 0, 41228301801423507583633737205527941910280079533870771191245734271465293int);
    lemma_powmod_step(2, 74058212732561358302231226437062788676166966415465897661863160754340907int, 4310755334594366041840474728789575670157033392197097282732322nat, 41228301801423507583633737205527941910280079533870771191245734271465293int, 0, 56125151366490582836076494185473101342318992994627436971405044306514823int);
    lemma_powmod_step(2, 74058212732561358302231226437062788676166966415465897661863160754340907int, 8621510669188732083680949457579151340314066784394194565464644nat, 56125151366490582836076494185473101342318992994627436971405044306514823int, 1, 28323761401501423319740767466650676138144076600591380874351201756351638int);
    lemma_powmod_step(2, 74058212732561358302231226437062788676166966415465897661863160754340907int, 17243021338377464167361898915158302680628133568788389130929289nat, 28323761401501423319740767466650676138144076600591380874351201756351638int, 1, 61713465242387963666511984434176895115856388939392619341212151030119913int);
    lemma_powmod_step(2, 74058212732561358302231226437062788676166966415465897661863160754340907int, 34486042676754928334723797830316605361256267137576778261858579nat, 61713465242387963666511984434176895115856388939392619341212151030119913int, 0, 25677987152966124656899148729216654306172613138876553253444975702370344int);
    lemma_powmod_step(2, 74058212732561358302231226437062788676166966415465897661863160754340907int, 68972085353509856669447595660633210722512534275153556523717158nat, 25677987152966124656899148729216654306172613138876553253444975702370344int, 0, 64143741142054044476126401709388927497443333794931240198945431324566584int);
    lemma_powmod_step(2, 74058212732561358302231226437062788676166966415465897661863160754340907int, 137944170707019713338895191321266421445025068550307113047434316nat, 64143741142054044476126401709388927497443333794931240198945431324566584int, 0, 62816709427018371758752275322786913405457365846212456517178180422197617int);
    lemma_powmod_step(2, 74058212732561358302231226437062788676166966415465897661863160754340907int, 275888341414039426677790382642532842890050137100614226094868632nat, 62816709427018371758752275322786913405457365846212456517178180422197617int, 1, 53605215187800231406943822520335594815195613158644993794267991915169500int);
    lemma_powmod_step(2, 74058212732561358302231226437062788676166966415465897661863160754340907int, 551776682828078853355580765285065685780100274201228452189737265nat, 53605215187800231406943822520335594815195613158644993794267991915169500int, 1, 35392279588354369277993449029050445321426086244161024528575505200818758int);
    lemma_powmod_step(2, 74058212732561358302231226437062788676166966415465897661863160754340907int, 1103553365656157706711161530570131371560200548402456904379474531nat, 35392279588354369277993449029050445321426086244161024528575505200818758int, 1, 13579505235554460919771912888675496432924108849128554118413807021414572int);
    lemma_powmod_step(2, 74058212732561358302231226437062788676166966415465897661863160754340907int, 2207106731312315413422323061140262743120401096804913808758949063nat, 13579505235554460919771912888675496432924108849128554118413807021414572int, 1, 12905168316996862587497280861171246250276409168631769110130187731097084int);
    lemma_powmod_step(2, 74058212732561358302231226437062788676166966415465897661863160754340907int, 4414213462624630826844646122280525486240802193609827617517898127nat, 12905168316996862587497280861171246250276409168631769110130187731097084int, 1, 44367265816835265920392817004338982583288201075085204477264586408172894int);
    lemma_powmod_step(2, 74058212732561358302231226437062788676166966415465897661863160754340907int, 8828426925249261653689292244561050972481604387219655235035796255nat, 44367265816835265920392817004338982583288201075085204477264586408172894int, 0, 68649737656217639088429373915437396526988251581046571986587271131185623int);
    lemma_powmod_step(2, 74058212732561358302231226437062788676166966415465897661863160754340907int, 17656853850498523307378584489122101944963208774439310470071592510nat, 68649737656217639088429373915437396526988251581046571986587271131185623int, 1, 44052610961805763982480161818411383224039063983382025675465361996804935int);
    lemma_powmod_step(2, 74058212732561358302231226437062788676166966415465897661863160754340907int, 35313707700997046614757168978244203889926417548878620940143185021nat, 44052610961805763982480161818411383224039063983382025675465361996804935int, 1, 67584883153018401499646129463741082013570789564504231118977617895201975int);
    lemma_powmod_step(2, 74058212732561358302231226437062788676166966415465897661863160754340907int, 70627415401994093229514337956488407779852835097757241880286370043nat, 67584883153018401499646129463741082013570789564504231118977617895201975int, 0, 154897093454864164673284149172368787040389364342111296446117471336221int);
    lemma_powmod_step(2, 74058212732561358302231226437062788676166966415465897661863160754340907int, 141254830803988186459028675912976815559705670195514483760572740086nat, 154897093454864164673284149172368787040389364342111296446117471336221int, 0, 5996887571432884123438277110117309742510610214550343191702649855364671int);
    lemma_powmod_step(2, 74058212732561358302231226437062788676166966415465897661863160754340907int, 282509661607976372918057351825953631119411340391028967521145480172nat, 5996887571432884123438277110117309742510610214550343191702649855364671int, 1, 68156330500015474086691528651616712821509879803100966198641816668467343int);
    lemma_powmod_step(2, 74058212732561358302231226437062788676166966415465897661863160754340907int, 565019323215952745836114703651907262238822680782057935042290960345nat, 68156330500015474086691528651616712821509879803100966198641816668467343int, 0, 20335694180036956263044578371823592011105868227634549230537469291135667int);
    lemma_powmod_step(2, 74058212732561358302231226437062788676166966415465897661863160754340907int, 1130038646431905491672229407303814524477645361564115870084581920690nat, 20335694180036956263044578371823592011105868227634549230537469291135667int, 0, 60610485487539643929815319136520230057582842949063641416126294358320261int);
    lemma_powmod_step(2, 74058212732561358302231226437062788676166966415465897661863160754340907int, 2260077292863810983344458814607629048955290723128231740169163841380nat, 60610485487539643929815319136520230057582842949063641416126294358320261int, 0, 42732548644083999593479100713225724899157858561619164308371159303034692int);
    lemma_powmod_step(2, 74058212732561358302231226437062788676166966415465897661863160754340907int, 4520154585727621966688917629215258097910581446256463480338327682760nat, 42732548644083999593479100713225724899157858561619164308371159303034692int, 0, 68352252903802304832858361082475876366669527947750335776421694793724361int);
    lemma_powmod_step(2, 74058212732561358302231226437062788676166966415465897661863160754340907int, 9040309171455243933377835258430516195821162892512926960676655365520nat, 68352252903802304832858361082475876366669527947750335776421694793724361int, 0, 2786068502745900137331916046524629063614996769852269060408656222186092int);
    lemma_powmod_step(2, 74058212732561358302231226437062788676166966415465897661863160754340907int, 18080618342910487866755670516861032391642325785025853921353310731040nat, 2786068502745900137331916046524629063614996769852269060408656222186092int, 0, 61352076294671624087145649929828696798128712623770133243418458856002955int);
    lemma_powmod_step(2, 74058212732561358302231226437062788676166966415465897661863160754340907int, 36161236685820975733511341033722064783284651570051707842706621462080nat, 61352076294671624087145649929828696798128712623770133243418458856002955int, 1, 56259280756580902628877884367340347832555477781774206380530866367758124int);
    lemma_powmod_step(2, 74058212732561358302231226437062788676166966415465897661863160754340907int, 72322473371641951467022682067444129566569303140103415685413242924161nat, 56259280756580902628877884367340347832555477781774206380530866367758124int, 0, 14089565386620262440165445902014486780087349267751962340098937105233547int);
    lemma_powmod_step(2, 74058212732561358302231226437062788676166966415465897661863160754340907int, 144644946743283902934045364134888259133138606280206831370826485848322nat, 14089565386620262440165445902014486780087349267751962340098937105233547int, 0, 69529853600877686293661527628521915365708567600651392372158799708837287int);
    lemma_powmod_step(2, 74058212732561358302231226437062788676166966415465897661863160754340907int, 289289893486567805868090728269776518266277212560413662741652971696644nat, 69529853600877686293661527628521915365708567600651392372158799708837287int, 0, 61931814477778937429008662884532670820208057811185456178089965160656779int);
    lemma_powmod_step(2, 74058212732561358302231226437062788676166966415465897661863160754340907int, 578579786973135611736181456539553036532554425120827325483305943393288nat, 61931814477778937429008662884532670820208057811185456178089965160656779int, 0, 10464509856658871519864692477362649148353176417673175016912935322714941int);
    lemma_powmod_step(2, 74058212732561358302231226437062788676166966415465897661863160754340907int, 1157159573946271223472362913079106073065108850241654650966611886786576nat, 10464509856658871519864692477362649148353176417673175016912935322714941int, 1, 31114441842078133924436296787384452518187950854211847891728777031667698int);
    lemma_powmod_step(2, 74058212732561358302231226437062788676166966415465897661863160754340907int, 2314319147892542446944725826158212146130217700483309301933223773573153nat, 31114441842078133924436296787384452518187950854211847891728777031667698int, 0, 28971653454968445710694108194287351302172831323253192144090114291892090int);
    lemma_powmod_step(2, 74058212732561358302231226437062788676166966415465897661863160754340907int, 4628638295785084893889451652316424292260435400966618603866447547146306nat, 28971653454968445710694108194287351302172831323253192144090114291892090int, 1, 6403130495642331776968542037196945651880428015040772196646625093384907int);
    lemma_powmod_step(2, 74058212732561358302231226437062788676166966415465897661863160754340907int, 9257276591570169787778903304632848584520870801933237207732895094292613nat, 6403130495642331776968542037196945651880428015040772196646625093384907int, 0, 24459794481472842914152717352883748826152361873207615800257387020585972int);
    lemma_powmod_step(2, 74058212732561358302231226437062788676166966415465897661863160754340907int, 18514553183140339575557806609265697169041741603866474415465790188585226nat, 24459794481472842914152717352883748826152361873207615800257387020585972int, 1, 74058212732561358302231226437062788676166966415465897661863160754340906int);
    lemma_powmod_step(2, 74058212732561358302231226437062788676166966415465897661863160754340907int, 37029106366280679151115613218531394338083483207732948830931580377170453nat, 74058212732561358302231226437062788676166966415465897661863160754340906int, 0, 1int);
}

proof fn lemma_pow_p74058212732561358302231226437062788676166966415465897661863160754340907_18()
    ensures
        pow(2, 981609426360740691344999861639072106nat) % 74058212732561358302231226437062788676166966415465897661863160754340907int == 69490809710348678725736597923071784769591275419387514694139338586948360int,
{
    lemma_pow1(2);
    lemma_small_mod(2, 74058212732561358302231226437062788676166966415465897661863160754340907nat);
    lemma_powmod_step(2, 74058212732561358302231226437062788676166966415465897661863160754340907int, 1nat, 2int, 0, 4int);
    lemma_powmod_step(2, 74058212732561358302231226437062788676166966415465897661863160754340907int, 2nat, 4int, 1, 32int);
    lemma_powmod_step(2, 74058212732561358302231226437062788676166966415465897661863160754340907int, 5nat, 32int, 1, 2048int);
    lemma_powmod_step(2, 74058212732561358302231226437062788676166966415465897661863160754340907int, 11nat, 2048int, 1, 8388608int);
    lemma_powmod_step(2, 74058212732561358302231226437062788676166966415465897661863160754340907int, 23nat, 8388608int, 1, 140737488355328int);
    lemma_powmod_step(2, 74058212732561358302231226437062788676166966415465897661863160754340907int, 47nat, 140737488355328int, 0, 19807040628566084398385987584int);
    lemma_powmod_step(2, 74058212732561358302231226437062788676166966415465897661863160754340907int, 94nat, 19807040628566084398385987584int, 1, 784637716923335095479473677900958302012794430558004314112int);
    lemma_powmod_step(2, 74058212732561358302231226437062788676166966415465897661863160754340907int, 189nat, 784637716923335095479473677900958302012794430558004314112int, 0, 212676479325586539664609129644855132160int);
    lemma_powmod_step(2, 74058212732561358302231226437062788676166966415465897661863160754340907int, 378nat, 212676479325586539664609129644855132160int, 0, 9257276591570169787778903304632848584520870801933237207732895094292629int);
    lemma_powmod_step(2, 74058212732561358302231226437062788676166966415465897661863160754340907int, 756nat, 9257276591570169787778903304632848584520870801933237207732895094292629int, 0, 42814904236012035268477427783926924703409027458941222085764639811103581int);
    lemma_powmod_step(2, 74058212732561358302231226437062788676166966415465897661863160754340907int, 1512nat, 42814904236012035268477427783926924703409027458941222085764639811103581int, 0, 67350303327341567303664872675307345658867663549221305857041082473184575int);
    lemma_powmod_step(2, 74058212732561358302231226437062788676166966415465897661863160754340907int, 3024nat, 67350303327341567303664872675307345658867663549221305857041082473184575int, 1, 35611163889389469987654922301840199380342240245497212783977253210223247int);
    lemma_powmod_step(2, 74058212732561358302231226437062788676166966415465897661863160754340907int, 6049nat, 35611163889389469987654922301840199380342240245497212783977253210223247int, 1, 18418446759371592376799735687423774052183681127705011041697004266691425int);
    lemma_powmod_step(2, 74058212732561358302231226437062788676166966415465897661863160754340907int, 12099nat, 18418446759371592376799735687423774052183681127705011041697004266691425int, 0, 50018382064960117726139413037012994628874463203589051724205103925874959int);
    lemma_powmod_step(2, 74058212732561358302231226437062788676166966415465897661863160754340907int, 24198nat, 50018382064960117726139413037012994628874463203589051724205103925874959int, 1, 10820701348675090188781782904093358004259012783131519068556942373226031int);
    lemma_powmod_step(2, 74058212732561358302231226437062788676166966415465897661863160754340907int, 48397nat, 10820701348675090188781782904093358004259012783131519068556942373226031int, 0, 53882086226459911720719223514639819256392573009799262795782854936937109int);
    lemma_powmod_step(2, 74058212732561358302231226437062788676166966415465897661863160754340907int, 96794nat, 53882086226459911720719223514639819256392573009799262795782854936937109int, 0, 31026804441375728781910736262517853733312237591303124398479010334543908int);
    lemma_powmod_step(2, 74058212732561358302231226437062788676166966415465897661863160754340907int, 193588nat, 31026804441375728781910736262517853733312237591303124398479010334543908int, 0, 47195183252526024137441526692345440730174986827957158703624900316773609int);
    lemma_powmod_step(2, 74058212732561358302231226437062788676166966415465897661863160754340907int, 387176nat, 47195183252526024137441526692345440730174986827957158703624900316773609int, 1, 36291934579476949170961539441498659148733234289554665606497081457366218int);
    lemma_powmod_step(2, 74058212732561358302231226437062788676166966415465897661863160754340907int, 774353nat, 36291934579476949170961539441498659148733234289554665606497081457366218int, 0, 42939280187358984190817754633417682473964471607542586091661680867112701int);
    lemma_powmod_step(2, 74058212732561358302231226437062788676166966415465897661863160754340907int, 1548706nat, 42939280187358984190817754633417682473964471607542586091661680867112701int, 1, 45426864663646518485482412603622655631572460763133737969073214472904836int);
    lemma_powmod_step(2, 74058212732561358302231226437062788676166966415465897661863160754340907int, 3097413nat, 45426864663646518485482412603622655631572460763133737969073214472904836int, 0, 10649518422501175337413347620245076517440441695780975935993576699785977int);
    lemma_powmod_step(2, 74058212732561358302231226437062788676166966415465897661863160754340907int, 6194826nat, 10649518422501175337413347620245076517440441695780975935993576699785977int, 0, 26468137062010504766510494899990372716311976644238514025378256550645878int);
    lemma_powmod_step(2, 74058212732561358302231226437062788676166966415465897661863160754340907int, 12389652nat, 26468137062010504766510494899990372716311976644238514025378256550645878int, 1, 66794171489631038307525793128576800918843618272561686581786016898594614int);
    lemma_powmod_step(2, 74058212732561358302231226437062788676166966415465897661863160754340907int, 24779305nat, 66794171489631038307525793128576800918843618272561686581786016898594614int, 1, 73723555997206006869384972328794329770427073036451337622245846298282533int);
    lemma_powmod_step(2, 74058212732561358302231226437062788676166966415465897661863160754340907int, 49558611nat, 73723555997206006869384972328794329770427073036451337622245846298282533int, 0, 47260047413850295524340801117859846689527409952507389999000405073549868int);
    lemma_powmod_step(2, 74058212732561358302231226437062788676166966415465897661863160754340907int, 99117222nat, 47260047413850295524340801117859846689527409952507389999000405073549868int, 0, 29758508075917093950376460550151922150999953377758899990487414539215855int);
    lemma_powmod_step(2, 74058212732561358302231226437062788676166966415465897661863160754340907int, 198234444nat, 29758508075917093950376460550151922150999953377758899990487414539215855int, 1, 15533081651677870270914748886790375115989360391793347345549385420752563int);
    lemma_powmod_step(2, 74058212732561358302231226437062788676166966415465897661863160754340907int, 396468889nat, 15533081651677870270914748886790375115989360391793347345549385420752563int, 1, 33032251797657976845775598082804288848602308872313537746715500337914680int);
    lemma_powmod_step(2, 74058212732561358302231226437062788676166966415465897661863160754340907int, 792937779nat, 33032251797657976845775598082804288848602308872313537746715500337914680int, 1, 6555666814127633506350188197211693389805847507378088565552137930169410int);
    lemma_powmod_step(2, 74058212732561358302231226437062788676166966415465897661863160754340907int, 1585875559nat, 6555666814127633506350188197211693389805847507378088565552137930169410int, 1, 23106016685637634157287559334335934391370487219714175683276611963389156int);
    lemma_powmod_step(2, 74058212732561358302231226437062788676166966415465897661863160754340907int, 3171751119nat, 23106016685637634157287559334335934391370487219714175683276611963389156int, 0, 9873998029049892886497741387572415978018053328879846957763859972516016int);
    lemma_powmod_step(2, 74058212732561358302231226437062788676166966415465897661863160754340907int, 6343502238nat, 9873998029049892886497741387572415978018053328879846957763859972516016int, 1, 55979328769682415423166058127506160050484147169866874315296139590696741int);
    lemma_powmod_step(2, 74058212732561358302231226437062788676166966415465897661863160754340907int, 12687004477nat, 55979328769682415423166058127506160050484147169866874315296139590696741int, 1, 3972333587906236889512936773951033395330448889846802252475024928072886int);
    lemma_powmod_step(2, 74058212732561358302231226437062788676166966415465897661863160754340907int, 25374008955nat, 3972333587906236889512936773951033395330448889846802252475024928072886int, 1, 27761516180245189731908187747824767962457452781687581946686976166293915int);
    lemma_powmod_step(2, 74058212732561358302231226437062788676166966415465897661863160754340907int, 50748017911nat, 27761516180245189731908187747824767962457452781687581946686976166293915int, 1, 54086688036442362388769764764538014158049767788699155274639419664302262int);
    lemma_powmod_step(2, 74058212732561358302231226437062788676166966415465897661863160754340907int, 101496035823nat, 54086688036442362388769764764538014158049767788699155274639419664302262int, 0, 62243176476028797547480952347273962206710983379796077722592821316367946int);
    lemma_powmod_step(2, 74058212732561358302231226437062788676166966415465897661863160754340907int, 202992071646nat, 62243176476028797547480952347273962206710983379796077722592821316367946int, 0, 51023904306648405031493181512252039755800111751213581856066693820252080int);
    lemma_powmod_step(2, 74058212732561358302231226437062788676166966415465897661863160754340907int, 405984143292nat, 51023904306648405031493181512252039755800111751213581856066693820252080int, 0, 71590560715488230603160546455438943176626670054473393316687045232831522int);
    lemma_powmod_step(2, 74058212732561358302231226437062788676166966415465897661863160754340907int, 811968286584nat, 71590560715488230603160546455438943176626670054473393316687045232831522int, 1, 39357750593411277626853990861866899611033627664285504489485487331296022int);
    lemma_powmod_step(2, 74058212732561358302231226437062788676166966415465897661863160754340907int, 1623936573169nat, 39357750593411277626853990861866899611033627664285504489485487331296022int, 1, 73994299027674238557536821761741624074404976648766356356064316312414311int);
    lemma_powmod_step(2, 74058212732561358302231226437062788676166966415465897661863160754340907int, 3247873146339nat, 73994299027674238557536821761741624074404976648766356356064316312414311int, 1, 3030880329163152304462673657469374079447722318864915893063539017610730int);
    lemma_powmod_step(2, 74058212732561358302231226437062788676166966415465897661863160754340907int, 6495746292679nat, 3030880329163152304462673657469374079447722318864915893063539017610730int, 0, 20186061522064547348942138738928635052949347431942743397747040877464336int);
    lemma_powmod_step(2, 74058212732561358302231226437062788676166966415465897661863160754340907int, 12991492585358nat, 20186061522064547348942138738928635052949347431942743397747040877464336int, 0, 31080597194559010657524423485039797717674499604036372503093027172496967int);
    lemma_powmod_step(2, 74058212732561358302231226437062788676166966415465897661863160754340907int, 25982985170716nat, 31080597194559010657524423485039797717674499604036372503093027172496967int, 1, 58440526477421557842028399989200600975360531510958556328261883512183080int);
    lemma_powmod_step(2, 74058212732561358302231226437062788676166966415465897661863160754340907int, 51965970341433nat, 58440526477421557842028399989200600975360531510958556328261883512183080int, 1, 41516042357108640934693520320558199706115539433164765985243275517819614int);
    lemma_powmod_step(2, 74058212732561358302231226437062788676166966415465897661863160754340907int, 103931940682867nat, 41516042357108640934693520320558199706115539433164765985243275517819614int, 1, 56850440753119798199641765124701563093724562108599945471550834900632544int);
    lemma_powmod_step(2, 74058212732561358302231226437062788676166966415465897661863160754340907int, 207863881365735nat, 56850440753119798199641765124701563093724562108599945471550834900632544int, 0, 59905247070155557589792938963250773898075121489390557708937474376224310int);
    lemma_powmod_step(2, 74058212732561358302231226437062788676166966415465897661863160754340907int, 415727762731470nat, 59905247070155557589792938963250773898075121489390557708937474376224310int, 1, 51610221560379778677873092924641887428558216155829860483579101455328292int);
    lemma_powmod_step(2, 74058212732561358302231226437062788676166966415465897661863160754340907int, 831455525462941nat, 51610221560379778677873092924641887428558216155829860483579101455328292int, 0, 12607433573230962643467891411585419083539293033581933793753662675160318int);
    lemma_powmod_step(2, 74058212732561358302231226437062788676166966415465897661863160754340907int, 1662911050925882nat, 12607433573230962643467891411585419083539293033581933793753662675160318int, 1, 7644206704861915064519872494262899263124054706753901718355019928171111int);
    lemma_powmod_step(2, 74058212732561358302231226437062788676166966415465897661863160754340907int, 3325822101851765nat, 7644206704861915064519872494262899263124054706753901718355019928171111int, 0, 3656616792795971615964429652879790037527250914219750234205407575397081int);
    lemma_powmod_step(2, 74058212732561358302231226437062788676166966415465897661863160754340907int, 6651644203703530nat, 3656616792795971615964429652879790037527250914219750234205407575397081int, 0, 44910072599201880858785016335765272683153853309518365827614176295667456int);
    lemma_powmod_step(2, 74058212732561358302231226437062788676166966415465897661863160754340907int, 13303288407407060nat, 44910072599201880858785016335765272683153853309518365827614176295667456int, 1, 42823733237427961866644958426854511007334944364622345030286946804018045int);
    lemma_powmod_step(2, 74058212732561358302231226437062788676166966415465897661863160754340907int, 26606576814814121nat, 42823733237427961866644958426854511007334944364622345030286946804018045int, 0, 44229501098471092128779605976169943203831069068326638942217283173370810int);
    lemma_powmod_step(2, 74058212732561358302231226437062788676166966415465897661863160754340907int, 53213153629628242nat, 44229501098471092128779605976169943203831069068326638942217283173370810int, 0, 15709313432981918239605436276139977726167899692337037488190852642013720int);
    lemma_powmod_step(2, 74058212732561358302231226437062788676166966415465897661863160754340907int, 106426307259256484nat, 15709313432981918239605436276139977726167899692337037488190852642013720int, 0, 64736048859960574996725171318638238837341298743207500270134321237311574int);
    lemma_powmod_step(2, 74058212732561358302231226437062788676166966415465897661863160754340907int, 212852614518512968nat, 64736048859960574996725171318638238837341298743207500270134321237311574int, 0, 7070111891805060864548757543425365476045914473664363518210803907818771int);
    lemma_powmod_step(2, 74058212732561358302231226437062788676166966415465897661863160754340907int, 425705229037025936nat, 7070111891805060864548757543425365476045914473664363518210803907818771int, 1, 73006098937535659217249858779868473560363143744827874117540793935541339int);
    lemma_powmod_step(2, 74058212732561358302231226437062788676166966415465897661863160754340907int, 851410458074051873nat, 73006098937535659217249858779868473560363143744827874117540793935541339int, 1, 26261028886456709935438836247269744776045331597228431455996526695426166int);
    lemma_powmod_step(2, 74058212732561358302231226437062788676166966415465897661863160754340907int, 1702820916148103747nat, 26261028886456709935438836247269744776045331597228431455996526695426166int, 0, 59164004801848140152236676725967919273956568472762473385950375178216207int);
    lemma_powmod_step(2, 74058212732561358302231226437062788676166966415465897661863160754340907int, 3405641832296207494nat, 59164004801848140152236676725967919273956568472762473385950375178216207int, 1, 5074814565478457957282033174263980056348248120341405154030853789348128int);
    lemma_powmod_step(2, 74058212732561358302231226437062788676166966415465897661863160754340907int, 6811283664592414989nat, 5074814565478457957282033174263980056348248120341405154030853789348128int, 0, 70469177349291559466123681724612771667726699584267318722499984723657333int);
    lemma_powmod_step(2, 74058212732561358302231226437062788676166966415465897661863160754340907int, 13622567329184829978nat, 70469177349291559466123681724612771667726699584267318722499984723657333int, 0, 55224902731661154825095012409331249029123573085174738085104203915879453int);
    lemma_powmod_step(2, 74058212732561358302231226437062788676166966415465897661863160754340907int, 27245134658369659956nat, 55224902731661154825095012409331249029123573085174738085104203915879453int, 0, 12219301287136083619979772169428104279429169654296992171429375052505739int);
    lemma_powmod_step(2, 74058212732561358302231226437062788676166966415465897661863160754340907int, 54490269316739319912nat, 12219301287136083619979772169428104279429169654296992171429375052505739int, 1, 43395268309710450924767376581795593145242126782251477239918119537609501int);
    lemma_powmod_step(2, 74058212732561358302231226437062788676166966415465897661863160754340907int, 108980538633478639825nat, 43395268309710450924767376581795593145242126782251477239918119537609501int, 1, 55268776644369205451234458373855931073298096374039012089695711263703948int);
    lemma_powmod_step(2, 74058212732561358302231226437062788676166966415465897661863160754340907int, 217961077266957279651nat, 55268776644369205451234458373855931073298096374039012089695711263703948int, 0, 31449701159615089460857935188139667440059681354380461699459251599772281int);
    lemma_powmod_step(2, 74058212732561358302231226437062788676166966415465897661863160754340907int, 435922154533914559302nat, 31449701159615089460857935188139667440059681354380461699459251599772281int, 0, 4270266321051578943348609850947362855436106466744013275257027353441085int);
    lemma_powmod_step(2, 74058212732561358302231226437062788676166966415465897661863160754340907int, 871844309067829118604nat, 4270266321051578943348609850947362855436106466744013275257027353441085int, 1, 32447942494260381179317789457463668218690385819077244298629524728574549int);
    lemma_powmod_step(2, 74058212732561358302231226437062788676166966415465897661863160754340907int, 1743688618135658237209nat, 32447942494260381179317789457463668218690385819077244298629524728574549int, 0, 54980755414433188203062458250353229448483829906751478486261111467667851int);
    lemma_powmod_step(2, 74058212732561358302231226437062788676166966415465897661863160754340907int, 3487377236271316474418nat, 54980755414433188203062458250353229448483829906751478486261111467667851int, 1, 67956744329022132767714645437480684503377926765859351246559220350355059int);
    lemma_powmod_step(2, 74058212732561358302231226437062788676166966415465897661863160754340907int, 6974754472542632948837nat, 67956744329022132767714645437480684503377926765859351246559220350355059int, 0, 65059046996379679682899910575007640085683652944613117515805467747006404int);
    lemma_powmod_step(2, 74058212732561358302231226437062788676166966415465897661863160754340907int, 13949508945085265897674nat, 65059046996379679682899910575007640085683652944613117515805467747006404int, 0, 24299272528052384420260690148753539293873449786856489604039988297761301int);
    lemma_powmod_step(2, 74058212732561358302231226437062788676166966415465897661863160754340907int, 27899017890170531795348nat, 24299272528052384420260690148753539293873449786856489604039988297761301int, 1, 63451802044238897392199271441770955419508672762410507456557591853977470int);
    lemma_powmod_step(2, 74058212732561358302231226437062788676166966415465897661863160754340907int, 55798035780341063590697nat, 63451802044238897392199271441770955419508672762410507456557591853977470int, 0, 22597814082411409699612966302411864418534596497329094182886460976015005int);
    lemma_powmod_step(2, 74058212732561358302231226437062788676166966415465897661863160754340907int, 111596071560682127181394nat, 22597814082411409699612966302411864418534596497329094182886460976015005int, 0, 41038390859567015992972922737202606252633949239260025002469908108295730int);
    lemma_powmod_step(2, 74058212732561358302231226437062788676166966415465897661863160754340907int, 223192143121364254362788nat, 41038390859567015992972922737202606252633949239260025002469908108295730int, 0, 6863649637622606812243395657090806345933121645807069554558333472971018int);
    lemma_powmod_step(2, 74058212732561358302231226437062788676166966415465897661863160754340907int, 446384286242728508725576nat, 6863649637622606812243395657090806345933121645807069554558333472971018int, 1, 17624207582733641917495387846056778294471677926149874945567454640532283int);
    lemma_powmod_step(2, 74058212732561358302231226437062788676166966415465897661863160754340907int, 892768572485457017451153nat, 17624207582733641917495387846056778294471677926149874945567454640532283int, 1, 49193208058566577959104148180871418100167009799773547090851024499038337int);
    lemma_powmod_step(2, 74058212732561358302231226437062788676166966415465897661863160754340907int, 1785537144970914034902307nat, 49193208058566577959104148180871418100167009799773547090851024499038337int, 0, 61578077530096916426596978715402478932905687967287143836897864375537972int);
    lemma_powmod_step(2, 74058212732561358302231226437062788676166966415465897661863160754340907int, 3571074289941828069804614nat, 61578077530096916426596978715402478932905687967287143836897864375537972int, 0, 4105875347237545186198470304769667924697171896217700108781547111408380int);
    lemma_powmod_step(2, 74058212732561358302231226437062788676166966415465897661863160754340907int, 7142148579883656139609228nat, 4105875347237545186198470304769667924697171896217700108781547111408380int, 0, 10828997928446210701989189866324491273221686470919068671602815019785289int);
    lemma_powmod_step(2, 74058212732561358302231226437062788676166966415465897661863160754340907int, 14284297159767312279218456nat, 10828997928446210701989189866324491273221686470919068671602815019785289int, 1, 48346849457390357025693369405251523959762280159930721241142046330427818int);
    lemma_powmod_step(2, 74058212732561358302231226437062788676166966415465897661863160754340907int, 28568594319534624558436913nat, 48346849457390357025693369405251523959762280159930721241142046330427818int, 0, 47059771906714119819812480879258455447475740669393630153716347794740304int);
    lemma_powmod_step(2, 74058212732561358302231226437062788676166966415465897661863160754340907int, 57137188639069249116873826nat, 47059771906714119819812480879258455447475740669393630153716347794740304int, 0, 40688680805101588592102734332792292787896502688139661668364615742469505int);
    lemma_powmod_step(2, 74058212732561358302231226437062788676166966415465897661863160754340907int, 114274377278138498233747652nat, 40688680805101588592102734332792292787896502688139661668364615742469505int, 0, 68648931893065637410210464875532471739450541519771408167643509998449990int);
    lemma_powmod_step(2, 74058212732561358302231226437062788676166966415465897661863160754340907int, 228548754556276996467495304nat, 68648931893065637410210464875532471739450541519771408167643509998449990int, 1, 17818161401505918158556069249545863733577477380957474073626904299065406int);
    lemma_powmod_step(2, 74058212732561358302231226437062788676166966415465897661863160754340907int, 457097509112553992934990609nat, 17818161401505918158556069249545863733577477380957474073626904299065406int, 1, 44777293032195950306999229438824625693916416402529125060476520480059304int);
    lemma_powmod_step(2, 74058212732561358302231226437062788676166966415465897661863160754340907int, 914195018225107985869981219nat, 44777293032195950306999229438824625693916416402529125060476520480059304int, 1, 39730253019602770864519918142779519123052512407983580023337025838859471int);
    lemma_powmod_step(2, 74058212732561358302231226437062788676166966415465897661863160754340907int, 1828390036450215971739962439nat, 39730253019602770864519918142779519123052512407983580023337025838859471int, 0, 69739347985785909195117120511593078001038509240396491072119825759284226int);
    lemma_powmod_step(2, 74058212732561358302231226437062788676166966415465897661863160754340907int, 3656780072900431943479924878nat, 69739347985785909195117120511593078001038509240396491072119825759284226int, 1, 5714243634965736365600732601690172024192946701703246837947486037928481int);
    lemma_powmod_step(2, 74058212732561358302231226437062788676166966415465897661863160754340907int, 7313560145800863886959849757nat, 5714243634965736365600732601690172024192946701703246837947486037928481int, 0, 8966701809750480175132281441372376453010733244796307400251428263928955int);
    lemma_powmod_step(2, 74058212732561358302231226437062788676166966415465897661863160754340907int, 14627120291601727773919699514nat, 8966701809750480175132281441372376453010733244796307400251428263928955int, 0, 38083218005577667609334965538993191743775586963748294557364486941971390int);
    lemma_powmod_step(2, 74058212732561358302231226437062788676166966415465897661863160754340907int, 29254240583203455547839399028nat, 38083218005577667609334965538993191743775586963748294557364486941971390int, 1, 25367839317771031639952215701897139861415218974366781842116251919875393int);
    lemma_powmod_step(2, 74058212732561358302231226437062788676166966415465897661863160754340907int, 58508481166406911095678798057nat, 25367839317771031639952215701897139861415218974366781842116251919875393int, 1, 10980063351514778157005549468018301628451670697274289593367167498595287int);
    lemma_powmod_step(2, 74058212732561358302231226437062788676166966415465897661863160754340907int, 117016962332813822191357596115nat, 10980063351514778157005549468018301628451670697274289593367167498595287int, 1, 10622552789254092636906058105188141289654609219000383430847022521194691int);
    lemma_powmod_step(2, 74058212732561358302231226437062788676166966415465897661863160754340907int, 234033924665627644382715192231nat, 10622552789254092636906058105188141289654609219000383430847022521194691int, 1, 37997587183541663779003367602879257353611870065895468345626288664735173int);
    lemma_powmod_step(2, 74058212732561358302231226437062788676166966415465897661863160754340907int, 468067849331255288765430384463nat, 37997587183541663779003367602879257353611870065895468345626288664735173int, 1, 21856358015838061538321139640202557757811906244077066571949230072250514int);
    lemma_powmod_step(2, 74058212732561358302231226437062788676166966415465897661863160754340907int, 936135698662510577530860768927nat, 21856358015838061538321139640202557757811906244077066571949230072250514int, 1, 21775303980155605413463449083452253346837572633045873128875810151344579int);
    lemma_powmod_step(2, 74058212732561358302231226437062788676166966415465897661863160754340907int, 1872271397325021155061721537855nat, 21775303980155605413463449083452253346837572633045873128875810151344579int, 0, 37207812695334010458645991763120351975762241618636847401056575066841294int);
    lemma_powmod_step(2, 74058212732561358302231226437062788676166966415465897661863160754340907int, 3744542794650042310123443075710nat, 37207812695334010458645991763120351975762241618636847401056575066841294int, 1, 37066768459898215312323199364324727412010576745391323375440717851850095int);
    lemma_powmod_step(2, 74058212732561358302231226437062788676166966415465897661863160754340907int, 7489085589300084620246886151421nat, 37066768459898215312323199364324727412010576745391323375440717851850095int, 0, 65626805947523963538669627678002060436780939641818486051885986015610197int);
    lemma_powmod_step(2, 74058212732561358302231226437062788676166966415465897661863160754340907int, 14978171178600169240493772302842nat, 65626805947523963538669627678002060436780939641818486051885986015610197int, 0, 25627939115667223615495161442228810027303364201690768059766515471224975int);
    lemma_powmod_step(2, 74058212732561358302231226437062788676166966415465897661863160754340907int, 29956342357200338480987544605684nat, 25627939115667223615495161442228810027303364201690768059766515471224975int, 1, 22215998879008375740440568544676670894116847390171418840696984340495629int);
    lemma_powmod_step(2, 74058212732561358302231226437062788676166966415465897661863160754340907int, 59912684714400676961975089211369nat, 22215998879008375740440568544676670894116847390171418840696984340495629int, 0, 35672966278453353814284990201267606061600807179621978912351760668730435int);
    lemma_powmod_step(2, 74058212732561358302231226437062788676166966415465897661863160754340907int, 119825369428801353923950178422738nat, 35672966278453353814284990201267606061600807179621978912351760668730435int, 0, 593108134046836163611118372097765501214679492636961049514195218046251int);
    lemma_powmod_step(2, 74058212732561358302231226437062788676166966415465897661863160754340907int, 239650738857602707847900356845476nat, 593108134046836163611118372097765501214679492636961049514195218046251int, 1, 66000338066974899546734582618282039671499733981041187452017325268703086int);
    lemma_powmod_step(2, 74058212732561358302231226437062788676166966415465897661863160754340907int, 479301477715205415695800713690953nat, 66000338066974899546734582618282039671499733981041187452017325268703086int, 0, 25128021495193710391433785416588563254141892544643471369982176932522359int);
    lemma_powmod_step(2, 74058212732561358302231226437062788676166966415465897661863160754340907int, 958602955430410831391601427381906nat, 25128021495193710391433785416588563254141892544643471369982176932522359int, 0, 43572807545398728076739399730915348192078017524923048607277794141141400int);
    lemma_powmod_step(2, 74058212732561358302231226437062788676166966415465897661863160754340907int, 1917205910860821662783202854763812nat, 43572807545398728076739399730915348192078017524923048607277794141141400int, 1, 64430789838214670370977400022716497713195584758074789776176847535238085int);
    lemma_powmod_step(2, 74058212732561358302231226437062788676166966415465897661863160754340907int, 3834411821721643325566405709527625nat, 64430789838214670370977400022716497713195584758074789776176847535238085int, 0, 23925621013128056732313651708555195202385702977930316835875695148479895int);
    lemma_powmod_step(2, 74058212732561358302231226437062788676166966415465897661863160754340907int, 7668823643443286651132811419055250nat, 23925621013128056732313651708555195202385702977930316835875695148479895int, 1, 59871792106663572955832521242387634588680708476662779603162677650268597int);
    lemma_powmod_step(2, 74058212732561358302231226437062788676166966415465897661863160754340907int, 15337647286886573302265622838110501nat, 59871792106663572955832521242387634588680708476662779603162677650268597int, 1, 39745327798338992893948292242152723184584720464885888454686274650404815int);
    lemma_powmod_step(2, 74058212732561358302231226437062788676166966415465897661863160754340907int, 30675294573773146604531245676221003nat, 39745327798338992893948292242152723184584720464885888454686274650404815int, 0, 31696639904365753107769442767829799140366231137872339266966295574876487int);
    lemma_powmod_step(2, 74058212732561358302231226437062788676166966415465897661863160754340907int, 61350589147546293209062491352442006nat, 31696639904365753107769442767829799140366231137872339266966295574876487int, 1, 44759233612880384862059565985245276826796294382194269589621359021687200int);
    lemma_powmod_step(2, 74058212732561358302231226437062788676166966415465897661863160754340907int, 122701178295092586418124982704884013nat, 44759233612880384862059565985245276826796294382194269589621359021687200int, 0, 43289307772775068289359397777382943891461722110298613870449815488589255int);
    lemma_powmod_step(2, 74058212732561358302231226437062788676166966415465897661863160754340907int, 245402356590185172836249965409768026nat, 43289307772775068289359397777382943891461722110298613870449815488589255int, 1, 25581444385703881019328578566098791501234095168041173362738593038334661int);
    lemma_powmod_step(2, 74058212732561358302231226437062788676166966415465897661863160754340907int, 490804713180370345672499930819536053nat, 25581444385703881019328578566098791501234095168041173362738593038334661int, 0, 69490809710348678725736597923071784769591275419387514694139338586948360int);
}

proof fn lemma_pow_p74058212732561358302231226437062788676166966415465897661863160754340907_19()
    ensures
        pow(2, 2331972502653487852620185443007392165117953542933313402nat) % 74058212732561358302231226437062788676166966415465897661863160754340907int == 50366660687963342066214195241331738400016478712605795091965648721912165int,
{
    lemma_pow1(2);
    lemma_small_mod(2, 74058212732561358302231226437062788676166966415465897661863160754340907nat);
    lemma_powmod_step(2, 74058212732561358302231226437062788676166966415465897661863160754340907int, 1nat, 2int, 1, 8int);
    lemma_powmod_step(2, 74058212732561358302231226437062788676166966415465897661863160754340907int, 3nat, 8int, 0, 64int);
    lemma_powmod_step(2, 74058212732561358302231226437062788676166966415465897661863160754340907int, 6nat, 64int, 0, 4096int);
    lemma_powmod_step(2, 74058212732561358302231226437062788676166966415465897661863160754340907int, 12nat, 4096int, 0, 16777216int);
    lemma_powmod_step(2, 74058212732561358302231226437062788676166966415465897661863160754340907int, 24nat, 16777216int, 0, 281474976710656int);
    lemma_powmod_step(2, 74058212732561358302231226437062788676166966415465897661863160754340907int, 48nat, 281474976710656int, 1, 158456325028528675187087900672int);
    lemma_powmod_step(2, 74058212732561358302231226437062788676166966415465897661863160754340907int, 97nat, 158456325028528675187087900672int, 0, 25108406941546723055343157692830665664409421777856138051584int);
    lemma_powmod_step(2, 74058212732561358302231226437062788676166966415465897661863160754340907int, 194nat, 25108406941546723055343157692830665664409421777856138051584int, 1, 435561429658801233233119497512663310663680int);
    lemma_powmod_step(2, 74058212732561358302231226437062788676166966415465897661863160754340907int, 389nat, 435561429658801233233119497512663310663680int, 1, 131072000int);
    lemma_powmod_step(2, 74058212732561358302231226437062788676166966415465897661863160754340907int, 779nat, 131072000int, 0, 17179869184000000int);
    lemma_powmod_step(2, 74058212732561358302231226437062788676166966415465897661863160754340907int, 1558nat, 17179869184000000int, 0, 295147905179352825856000000000000int);
    lemma_powmod_step(2, 74058212732561358302231226437062788676166966415465897661863160754340907int, 3116nat, 295147905179352825856000000000000int, 0, 87112285931760246646623899502532662132736000000000000000000000000int);
    lemma_powmod_step(2, 74058212732561358302231226437062788676166966415465897661863160754340907int, 6232nat, 87112285931760246646623899502532662132736000000000000000000000000int, 1, 5242880000000000000000000000000000000000000000000000000int);
    lemma_powmod_step(2, 74058212732561358302231226437062788676166966415465897661863160754340907int, 12465nat, 5242880000000000000000000000000000000000000000000000000int, 1, 17767557274388331329143141634414307561737313317748060429242585661605203int);
    lemma_powmod_step(2, 74058212732561358302231226437062788676166966415465897661863160754340907int, 24931nat, 17767557274388331329143141634414307561737313317748060429242585661605203int, 0, 36656263410013171195088971800893623230478565138907122186401084379405276int);
    lemma_powmod_step(2, 74058212732561358302231226437062788676166966415465897661863160754340907int, 49862nat, 36656263410013171195088971800893623230478565138907122186401084379405276int, 1, 68553820212079046458387507844299288612608508097948287525562352290709443int);
    lemma_powmod_step(2, 74058212732561358302231226437062788676166966415465897661863160754340907int, 99725nat, 68553820212079046458387507844299288612608508097948287525562352290709443int, 0, 66452148044409616402149789805351503063097400546694039290753452425387177int);
    lemma_powmod_step(2, 74058212732561358302231226437062788676166966415465897661863160754340907int, 199450nat, 66452148044409616402149789805351503063097400546694039290753452425387177int, 0, 6818335646776680410559372149595847606686778041581427667913845744349397int);
    lemma_powmod_step(2, 74058212732561358302231226437062788676166966415465897661863160754340907int, 398900nat, 6818335646776680410559372149595847606686778041581427667913845744349397int, 0, 24280882182073435199363471793596721798072164338590661179750579043637523int);
    lemma_powmod_step(2, 74058212732561358302231226437062788676166966415465897661863160754340907int, 797800nat, 24280882182073435199363471793596721798072164338590661179750579043637523int, 0, 1899518947132174232662466226059841868838379507511135609131072087061267int);
    lemma_powmod_step(2, 74058212732561358302231226437062788676166966415465897661863160754340907int, 1595600nat, 1899518947132174232662466226059841868838379507511135609131072087061267int, 0, 53259938568014631063563581158302286906984413299621595688104245484671284int);
    lemma_powmod_step(2, 74058212732561358302231226437062788676166966415465897661863160754340907int, 3191200nat, 53259938568014631063563581158302286906984413299621595688104245484671284int, 1, 52196113133025956340795433333504690505547289818221036088889372346552200int);
    lemma_powmod_step(2, 74058212732561358302231226437062788676166966415465897661863160754340907int, 6382401nat, 52196113133025956340795433333504690505547289818221036088889372346552200int, 0, 20647390751218644823481039353450611096069115663092727556802169792233006int);
    lemma_powmod_step(2, 74058212732561358302231226437062788676166966415465897661863160754340907int, 12764802nat, 20647390751218644823481039353450611096069115663092727556802169792233006int, 1, 67465738994233139614365618108299554827650702838246602754305558416968422int);
    lemma_powmod_step(2, 74058212732561358302231226437062788676166966415465897661863160754340907int, 25529605nat, 67465738994233139614365618108299554827650702838246602754305558416968422int, 0, 41228705537794924529534562027101429198561924341454784711231316394495869int);
    lemma_powmod_step(2, 74058212732561358302231226437062788676166966415465897661863160754340907int, 51059210nat, 41228705537794924529534562027101429198561924341454784711231316394495869int, 1, 20279326734487019495203343329759868128410403981468154775681407588653938int);
    lemma_powmod_step(2, 74058212732561358302231226437062788676166966415465897661863160754340907int, 102118421nat, 20279326734487019495203343329759868128410403981468154775681407588653938int, 0, 22802282143761110543878726055266682645782045089589349847051284967900531int);
    lemma_powmod_step(2, 74058212732561358302231226437062788676166966415465897661863160754340907int, 204236842nat, 22802282143761110543878726055266682645782045089589349847051284967900531int, 1, 11303003328893088267833454975824106927734067441224299636307751390009790int);
    lemma_powmod_step(2, 74058212732561358302231226437062788676166966415465897661863160754340907int, 408473685nat, 11303003328893088267833454975824106927734067441224299636307751390009790int, 1, 50409548617503867606828551731879844018134031396461451434835886903993419int);
    lemma_powmod_step(2, 74058212732561358302231226437062788676166966415465897661863160754340907int, 816947371nat, 50409548617503867606828551731879844018134031396461451434835886903993419int, 1, 22624261670742650670443053624376197866562929081826577453172600564158435int);
    lemma_powmod_step(2, 74058212732561358302231226437062788676166966415465897661863160754340907int, 1633894743nat, 22624261670742650670443053624376197866562929081826577453172600564158435int, 0, 73275514561977300142228864582438114661257602449944636898822976222728449int);
    lemma_powmod_step(2, 74058212732561358302231226437062788676166966415465897661863160754340907int, 3267789486nat, 73275514561977300142228864582438114661257602449944636898822976222728449int, 1, 35174367414575316563513131796819731685168526933835551625670638855232836int);
    lemma_powmod_step(2, 74058212732561358302231226437062788676166966415465897661863160754340907int, 6535578973nat, 35174367414575316563513131796819731685168526933835551625670638855232836int, 1, 13382004127798876125824244859756590504123864462536352329485661126566265int);
    lemma_powmod_step(2, 74058212732561358302231226437062788676166966415465897661863160754340907int, 13071157947nat, 13382004127798876125824244859756590504123864462536352329485661126566265int, 0, 62837415118424202114787570065472876844213072652841146253937914202900876int);
    lemma_powmod_step(2, 74058212732561358302231226437062788676166966415465897661863160754340907int, 26142315894nat, 62837415118424202114787570065472876844213072652841146253937914202900876int, 1, 64324694132106204301913335054453413383281173695761316553226354786166024int);
    lemma_powmod_step(2, 74058212732561358302231226437062788676166966415465897661863160754340907int, 52284631789nat, 64324694132106204301913335054453413383281173695761316553226354786166024int, 0, 16309119730119299929386554848863291118781081260116993687067811979658444int);
    lemma_powmod_step(2, 74058212732561358302231226437062788676166966415465897661863160754340907int, 104569263578nat, 16309119730119299929386554848863291118781081260116993687067811979658444int, 0, 59981379526147458661750359950328762305232497832640317697132576028951737int);
    lemma_powmod_step(2, 74058212732561358302231226437062788676166966415465897661863160754340907int, 209138527156nat, 59981379526147458661750359950328762305232497832640317697132576028951737int, 0, 53616442417098227561640060234787309193055283869175795694049256175327002int);
    lemma_powmod_step(2, 74058212732561358302231226437062788676166966415465897661863160754340907int, 418277054312nat, 53616442417098227561640060234787309193055283869175795694049256175327002int, 0, 32337002446159374145233821575529352121431481494181156417172778436604442int);
    lemma_powmod_step(2, 74058212732561358302231226437062788676166966415465897661863160754340907int, 836554108624nat, 32337002446159374145233821575529352121431481494181156417172778436604442int, 1, 47771825570260386926836079050549042557172975520873649843851669020879558int);
    lemma_powmod_step(2, 74058212732561358302231226437062788676166966415465897661863160754340907int, 1673108217249nat, 47771825570260386926836079050549042557172975520873649843851669020879558int, 1, 8425644366319976652968394622050931562513865178720597913624250243398538int);
    lemma_powmod_step(2, 74058212732561358302231226437062788676166966415465897661863160754340907int, 3346216434499nat, 8425644366319976652968394622050931562513865178720597913624250243398538int, 1, 23569413871469650781161040805191969020416605965287404214376589298460151int);
    lemma_powmod_step(2, 74058212732561358302231226437062788676166966415465897661863160754340907int, 6692432868999nat, 23569413871469650781161040805191969020416605965287404214376589298460151int, 0, 13037869531503378256350620144281395365509899383205871624365405256024238int);
    lemma_powmod_step(2, 74058212732561358302231226437062788676166966415465897661863160754340907int, 13384865737998nat, 13037869531503378256350620144281395365509899383205871624365405256024238int, 0, 67511190735783069574294846544624232019217437201205367007235599500244717int);
    lemma_powmod_step(2, 74058212732561358302231226437062788676166966415465897661863160754340907int, 26769731475996nat, 67511190735783069574294846544624232019217437201205367007235599500244717int, 1, 33435921517530064663817186650978463639076768754806664822968319881981213int);
    lemma_powmod_step(2, 74058212732561358302231226437062788676166966415465897661863160754340907int, 53539462951993nat, 33435921517530064663817186650978463639076768754806664822968319881981213int, 1, 59051414293430122431521519329656745228050428461747992925502275648189564int);
    lemma_powmod_step(2, 74058212732561358302231226437062788676166966415465897661863160754340907int, 107078925903987nat, 59051414293430122431521519329656745228050428461747992925502275648189564int, 1, 60930653559782939582231426028266977251237986339259400795217918250452608int);
    lemma_powmod_step(2, 74058212732561358302231226437062788676166966415465897661863160754340907int, 214157851807975nat, 60930653559782939582231426028266977251237986339259400795217918250452608int, 1, 10250541648213454677747603240719674593651015199237060759222801195498305int);
    lemma_powmod_step(2, 74058212732561358302231226437062788676166966415465897661863160754340907int, 428315703615951nat, 10250541648213454677747603240719674593651015199237060759222801195498305int, 0, 5674174491610459124690009494515872556260535015994426772093363081289355int);
    lemma_powmod_step(2, 74058212732561358302231226437062788676166966415465897661863160754340907int, 856631407231902nat, 5674174491610459124690009494515872556260535015994426772093363081289355int, 0, 27293976413110159691553952389355986652073653157153942903927459384570637int);
    lemma_powmod_step(2, 74058212732561358302231226437062788676166966415465897661863160754340907int, 1713262814463804nat, 27293976413110159691553952389355986652073653157153942903927459384570637int, 0, 37611635104666894409007188084716439993329626117526803432839396900819035int);
    lemma_powmod_step(2, 74058212732561358302231226437062788676166966415465897661863160754340907int, 3426525628927608nat, 37611635104666894409007188084716439993329626117526803432839396900819035int, 1, 50396015906180071691847043185400506251445490364420318401155480450392594int);
    lemma_powmod_step(2, 74058212732561358302231226437062788676166966415465897661863160754340907int, 6853051257855217nat, 50396015906180071691847043185400506251445490364420318401155480450392594int, 0, 2769121422615973278163967382337146407348800015507833412838231082356702int);
    lemma_powmod_step(2, 74058212732561358302231226437062788676166966415465897661863160754340907int, 13706102515710434nat, 2769121422615973278163967382337146407348800015507833412838231082356702int, 0, 45111175219076179494206518827303082410758885873012569628293627301819427int);
    lemma_powmod_step(2, 74058212732561358302231226437062788676166966415465897661863160754340907int, 27412205031420868nat, 45111175219076179494206518827303082410758885873012569628293627301819427int, 0, 44085134604754210992048313725780265726466691163349039127303817532495853int);
    lemma_powmod_step(2, 74058212732561358302231226437062788676166966415465897661863160754340907int, 54824410062841736nat, 44085134604754210992048313725780265726466691163349039127303817532495853int, 1, 37907185376390335310134659355606615681124708370817883909064711460093936int);
    lemma_powmod_step(2, 74058212732561358302231226437062788676166966415465897661863160754340907int, 109648820125683473nat, 37907185376390335310134659355606615681124708370817883909064711460093936int, 0, 21570977985531815803187958091468941868616393383670303997375308149749389int);
    lemma_powmod_step(2, 74058212732561358302231226437062788676166966415465897661863160754340907int, 219297640251366946nat, 21570977985531815803187958091468941868616393383670303997375308149749389int, 1, 64696007520378710372802893115423064860814400437082776534194951205294007int);
    lemma_powmod_step(2, 74058212732561358302231226437062788676166966415465897661863160754340907int, 438595280502733893nat, 64696007520378710372802893115423064860814400437082776534194951205294007int, 1, 25981720122240933106549381101974397292188711111472325583319874073111211int);
    lemma_powmod_step(2, 74058212732561358302231226437062788676166966415465897661863160754340907int, 877190561005467787nat, 25981720122240933106549381101974397292188711111472325583319874073111211int, 1, 44255859039692480567689410709382049741237023253308994146690560921039962int);
    lemma_powmod_step(2, 74058212732561358302231226437062788676166966415465897661863160754340907int, 1754381122010935575nat, 44255859039692480567689410709382049741237023253308994146690560921039962int, 0, 49868590563824061183265631981474079979908866922911175648747755631946062int);
    lemma_powmod_step(2, 74058212732561358302231226437062788676166966415465897661863160754340907int, 3508762244021871150nat, 49868590563824061183265631981474079979908866922911175648747755631946062int, 1, 21884236027650316411331514882511005452153898546480761177175884274956159int);
    lemma_powmod_step(2, 74058212732561358302231226437062788676166966415465897661863160754340907int, 7017524488043742301nat, 21884236027650316411331514882511005452153898546480761177175884274956159int, 0, 53859315828962956156617484472481989007338532976679102783438244399992802int);
    lemma_powmod_step(2, 74058212732561358302231226437062788676166966415465897661863160754340907int, 14035048976087484602nat, 53859315828962956156617484472481989007338532976679102783438244399992802int, 0, 57993890392963881952222652950880334892049876379715308233371226021202161int);
    lemma_powmod_step(2, 74058212732561358302231226437062788676166966415465897661863160754340907int, 28070097952174969204nat, 57993890392963881952222652950880334892049876379715308233371226021202161int, 1, 35077145756908075408953916603237630245368867551558192762855894936633009int);
    lemma_powmod_step(2, 74058212732561358302231226437062788676166966415465897661863160754340907int, 56140195904349938409nat, 35077145756908075408953916603237630245368867551558192762855894936633009int, 1, 57115162837241301139369696959771646046782053015340961436609988061209598int);
    lemma_powmod_step(2, 74058212732561358302231226437062788676166966415465897661863160754340907int, 112280391808699876819nat, 57115162837241301139369696959771646046782053015340961436609988061209598int, 0, 36921452034046854030583515653689418114279155344412448154390726680113897int);
    lemma_powmod_step(2, 74058212732561358302231226437062788676166966415465897661863160754340907int, 224560783617399753638nat, 36921452034046854030583515653689418114279155344412448154390726680113897int, 0, 31780215256769886206804036739599252991503997805895767000738701487778056int);
    lemma_powmod_step(2, 74058212732561358302231226437062788676166966415465897661863160754340907int, 449121567234799507276nat, 31780215256769886206804036739599252991503997805895767000738701487778056int, 1, 8838331715194903820509757927920161102748232408087554236499356129633555int);
    lemma_powmod_step(2, 74058212732561358302231226437062788676166966415465897661863160754340907int, 898243134469599014553nat, 8838331715194903820509757927920161102748232408087554236499356129633555int, 1, 7911307918584604450704208171008368496130897912293290066090361573986554int);
    lemma_powmod_step(2, 74058212732561358302231226437062788676166966415465897661863160754340907int, 1796486268939198029107nat, 7911307918584604450704208171008368496130897912293290066090361573986554int, 1, 72334487771372492874523403962500973796676309455115381609157005503038332int);
    lemma_powmod_step(2, 74058212732561358302231226437062788676166966415465897661863160754340907int, 3592972537878396058215nat, 72334487771372492874523403962500973796676309455115381609157005503038332int, 1, 55704051528114499929902020892039497210713186559780941052799518925577402int);
    lemma_powmod_step(2, 74058212732561358302231226437062788676166966415465897661863160754340907int, 7185945075756792116431nat, 55704051528114499929902020892039497210713186559780941052799518925577402int, 0, 27616008083531811469403311165186673787457315206580891350695596622764117int);
    lemma_powmod_step(2, 74058212732561358302231226437062788676166966415465897661863160754340907int, 14371890151513584232862nat, 27616008083531811469403311165186673787457315206580891350695596622764117int, 1, 37098766848345115052679145133221398803228220130219220171629119320084123int);
    lemma_powmod_step(2, 74058212732561358302231226437062788676166966415465897661863160754340907int, 28743780303027168465725nat, 37098766848345115052679145133221398803228220130219220171629119320084123int, 0, 5855114451944985528895291276695731306991864345616326091914225633203974int);
    lemma_powmod_step(2, 74058212732561358302231226437062788676166966415465897661863160754340907int, 57487560606054336931450nat, 5855114451944985528895291276695731306991864345616326091914225633203974int, 1, 9914507780722188950447012580890195419761254381418201129849161651514792int);
    lemma_powmod_step(2, 74058212732561358302231226437062788676166966415465897661863160754340907int, 114975121212108673862901nat, 9914507780722188950447012580890195419761254381418201129849161651514792int, 0, 54320585317693951005056409156036508244411033703913720142029342116125901int);
    lemma_powmod_step(2, 74058212732561358302231226437062788676166966415465897661863160754340907int, 229950242424217347725802nat, 54320585317693951005056409156036508244411033703913720142029342116125901int, 1, 8707776989944281467983579285710798873266127688775442421577264039709146int);
    lemma_powmod_step(2, 74058212732561358302231226437062788676166966415465897661863160754340907int, 459900484848434695451605nat, 8707776989944281467983579285710798873266127688775442421577264039709146int, 0, 68556184553715616880445199871067874350911554024197102057188507189008681int);
    lemma_powmod_step(2, 74058212732561358302231226437062788676166966415465897661863160754340907int, 919800969696869390903210nat, 68556184553715616880445199871067874350911554024197102057188507189008681int, 0, 67807894967258397095291365361919033356844806321231458752114614970014752int);
    lemma_powmod_step(2, 74058212732561358302231226437062788676166966415465897661863160754340907int, 1839601939393738781806420nat, 67807894967258397095291365361919033356844806321231458752114614970014752int, 0, 29685979738432853255364828954064694894043619004494666543401813902902200int);
    lemma_powmod_step(2, 74058212732561358302231226437062788676166966415465897661863160754340907int, 3679203878787477563612840nat, 29685979738432853255364828954064694894043619004494666543401813902902200int, 1, 59423212083117030347641258308354405576220989905620074316513772153898657int);
    lemma_powmod_step(2, 74058212732561358302231226437062788676166966415465897661863160754340907int, 7358407757574955127225681nat, 59423212083117030347641258308354405576220989905620074316513772153898657int, 1, 71297968702581926731982963073464382958350380207679039587918822549723676int);
    lemma_powmod_step(2, 74058212732561358302231226437062788676166966415465897661863160754340907int, 14716815515149910254451363nat, 71297968702581926731982963073464382958350380207679039587918822549723676int, 1, 62790827307018793620089927131310486724934911145574127251196477129983667int);
    lemma_powmod_step(2, 74058212732561358302231226437062788676166966415465897661863160754340907int, 29433631030299820508902727nat, 62790827307018793620089927131310486724934911145574127251196477129983667int, 0, 51264834528924002175133079563971404986536039181932411780725702585787258int);
    lemma_powmod_step(2, 74058212732561358302231226437062788676166966415465897661863160754340907int, 58867262060599641017805454nat, 51264834528924002175133079563971404986536039181932411780725702585787258int, 0, 72484400843520452565259475983842259069965911364127485214268048898039014int);
    lemma_powmod_step(2, 74058212732561358302231226437062788676166966415465897661863160754340907int, 117734524121199282035610908nat, 72484400843520452565259475983842259069965911364127485214268048898039014int, 0, 39713714348830776040305152998482670672010990835387045102886674255527734int);
    lemma_powmod_step(2, 74058212732561358302231226437062788676166966415465897661863160754340907int, 235469048242398564071221816nat, 39713714348830776040305152998482670672010990835387045102886674255527734int, 1, 8001271885186202187759440976670273547458505463302652755355092746013020int);
    lemma_powmod_step(2, 74058212732561358302231226437062788676166966415465897661863160754340907int, 470938096484797128142443633nat, 8001271885186202187759440976670273547458505463302652755355092746013020int, 0, 31715844394040986465703332074591655347500641267938049583173750988646065int);
    lemma_powmod_step(2, 74058212732561358302231226437062788676166966415465897661863160754340907int, 941876192969594256284887266nat, 31715844394040986465703332074591655347500641267938049583173750988646065int, 1, 53334784392271435279206682969844493784122301735467355564292254986541658int);
    lemma_powmod_step(2, 74058212732561358302231226437062788676166966415465897661863160754340907int, 1883752385939188512569774533nat, 53334784392271435279206682969844493784122301735467355564292254986541658int, 0, 24511601744595503330423249195748293753649728706330928786227190238929698int);
    lemma_powmod_step(2, 74058212732561358302231226437062788676166966415465897661863160754340907int, 3767504771878377025139549066nat, 24511601744595503330423249195748293753649728706330928786227190238929698int, 0, 49404008682471092937353897150609806889515845331730629862126906319409954int);
    lemma_powmod_step(2, 74058212732561358302231226437062788676166966415465897661863160754340907int, 7535009543756754050279098132nat, 49404008682471092937353897150609806889515845331730629862126906319409954int, 0, 148261235332540362453353086928540301063623833585723849374040676636339int);
    lemma_powmod_step(2, 74058212732561358302231226437062788676166966415465897661863160754340907int, 15070019087513508100558196264nat, 148261235332540362453353086928540301063623833585723849374040676636339int, 1, 45611987712174901828408759019451075488142338484362774713404756933166493int);
    lemma_powmod_step(2, 74058212732561358302231226437062788676166966415465897661863160754340907int, 30140038175027016201116392529nat, 45611987712174901828408759019451075488142338484362774713404756933166493int, 1, 73318207009127386938742355820420272574935504058507542691508555903368744int);
    lemma_powmod_step(2, 74058212732561358302231226437062788676166966415465897661863160754340907int, 60280076350054032402232785059nat, 73318207009127386938742355820420272574935504058507542691508555903368744int, 0, 39864201350408460260981546627607082121689482558606487348296917558089414int);
    lemma_powmod_step(2, 74058212732561358302231226437062788676166966415465897661863160754340907int, 120560152700108064804465570118nat, 39864201350408460260981546627607082121689482558606487348296917558089414int, 1, 864441165861375677948368851988865204725358050059500852163328270531858int);
    lemma_powmod_step(2, 74058212732561358302231226437062788676166966415465897661863160754340907int, 241120305400216129608931140237nat, 864441165861375677948368851988865204725358050059500852163328270531858int, 1, 44852046605538417416718080742339303090546493181506112501490385917247407int);
    lemma_powmod_step(2, 74058212732561358302231226437062788676166966415465897661863160754340907int, 482240610800432259217862280475nat, 44852046605538417416718080742339303090546493181506112501490385917247407int, 1, 558851966913733610952498891920402905782446645524837844083010147527193int);
    lemma_powmod_step(2, 74058212732561358302231226437062788676166966415465897661863160754340907int, 964481221600864518435724560951nat, 558851966913733610952498891920402905782446645524837844083010147527193int, 0, 3622572119250172590682337449488710474947729391392550347399739870297076int);
    lemma_powmod_step(2, 74058212732561358302231226437062788676166966415465897661863160754340907int, 1928962443201729036871449121902nat, 3622572119250172590682337449488710474947729391392550347399739870297076int, 1, 23245578903073745715089986077043002466840413337585461104213899887182334int);
    lemma_powmod_step(2, 74058212732561358302231226437062788676166966415465897661863160754340907int, 3857924886403458073742898243805nat, 23245578903073745715089986077043002466840413337585461104213899887182334int, 0, 50235989733846288148209805923516964221742035739010064452131123858872143int);
    lemma_powmod_step(2, 74058212732561358302231226437062788676166966415465897661863160754340907int, 7715849772806916147485796487610nat, 50235989733846288148209805923516964221742035739010064452131123858872143int, 0, 6136834076599802162229242074163072348862831132304408282308415787430388int);
    lemma_powmod_step(2, 74058212732561358302231226437062788676166966415465897661863160754340907int, 15431699545613832294971592975220nat, 6136834076599802162229242074163072348862831132304408282308415787430388int, 0, 55262813072408435825650942569078236582678521952594381205908963441738647int);
    lemma_powmod_step(2, 74058212732561358302231226437062788676166966415465897661863160754340907int, 30863399091227664589943185950440nat, 55262813072408435825650942569078236582678521952594381205908963441738647int, 1, 22397728422822830951142321150341107678291099284816632484080214582332806int);
    lemma_powmod_step(2, 74058212732561358302231226437062788676166966415465897661863160754340907int, 61726798182455329179886371900881nat, 22397728422822830951142321150341107678291099284816632484080214582332806int, 0, 35823421657976821041834464236368207091531993732946254709766826786994904int);
    lemma_powmod_step(2, 74058212732561358302231226437062788676166966415465897661863160754340907int, 123453596364910658359772743801762nat, 35823421657976821041834464236368207091531993732946254709766826786994904int, 0, 189145577665291802181961061511373827520929681458908444950776452532030int);
    lemma_powmod_step(2, 74058212732561358302231226437062788676166966415465897661863160754340907int, 246907192729821316719545487603524nat, 189145577665291802181961061511373827520929681458908444950776452532030int, 1, 34662842951585351593193867910115100612774107766839523718979601528751725int);
    lemma_powmod_step(2, 74058212732561358302231226437062788676166966415465897661863160754340907int, 493814385459642633439090975207049nat, 34662842951585351593193867910115100612774107766839523718979601528751725int, 0, 21067437923382197186044233463055210233272034178273996582897933625228169int);
    lemma_powmod_step(2, 74058212732561358302231226437062788676166966415465897661863160754340907int, 987628770919285266878181950414098nat, 21067437923382197186044233463055210233272034178273996582897933625228169int, 0, 39914939750548062398531753361084486546542794357960804708680499053263314int);
    lemma_powmod_step(2, 74058212732561358302231226437062788676166966415465897661863160754340907int, 1975257541838570533756363900828196nat, 39914939750548062398531753361084486546542794357960804708680499053263314int, 0, 34771463460738979571942998128859301377130817862826478436378584312611843int);
    lemma_powmod_step(2, 74058212732561358302231226437062788676166966415465897661863160754340907int, 3950515083677141067512727801656392nat, 34771463460738979571942998128859301377130817862826478436378584312611843int, 1, 19736483931812342320120343320745399662670779525262570457071667156663822int);
    lemma_powmod_step(2, 74058212732561358302231226437062788676166966415465897661863160754340907int, 7901030167354282135025455603312785nat, 19736483931812342320120343320745399662670779525262570457071667156663822int, 1, 25075150224352515952060141899309274925874182658824781021807815840138395int);
    lemma_powmod_step(2, 74058212732561358302231226437062788676166966415465897661863160754340907int, 15802060334708564270050911206625571nat, 25075150224352515952060141899309274925874182658824781021807815840138395int, 0, 39248571010883107386224014234824974570529646806470884711472174480894534int);
    lemma_powmod_step(2, 74058212732561358302231226437062788676166966415465897661863160754340907int, 31604120669417128540101822413251142nat, 39248571010883107386224014234824974570529646806470884711472174480894534int, 1, 47897546703259973179428254657151207845775992901998033417240104112709303int);
    lemma_powmod_step(2, 74058212732561358302231226437062788676166966415465897661863160754340907int, 63208241338834257080203644826502285nat, 47897546703259973179428254657151207845775992901998033417240104112709303int, 0, 19332020010437809783968561762247760141782644457481991001747322747599193int);
    lemma_powmod_step(2, 74058212732561358302231226437062788676166966415465897661863160754340907int, 126416482677668514160407289653004570nat, 19332020010437809783968561762247760141782644457481991001747322747599193int, 1, 62438799761794874493371411033544663230861435453811812584023272373281757int);
    lemma_powmod_step(2, 74058212732561358302231226437062788676166966415465897661863160754340907int, 252832965355337028320814579306009141nat, 62438799761794874493371411033544663230861435453811812584023272373281757int, 0, 37244304833629304300909905018381360666242414062978365916617372919672926int);
    lemma_powmod_step(2, 74058212732561358302231226437062788676166966415465897661863160754340907int, 505665930710674056641629158612018282nat, 37244304833629304300909905018381360666242414062978365916617372919672926int, 0, 54610625196712045437078929752951058722211357524634783463079696417850107int);
    lemma_powmod_step(2, 74058212732561358302231226437062788676166966415465897661863160754340907int, 1011331861421348113283258317224036564nat, 54610625196712045437078929752951058722211357524634783463079696417850107int, 1, 56595372768643252414756550269586649689506833097576318335111067712315500int);
    lemma_powmod_step(2, 74058212732561358302231226437062788676166966415465897661863160754340907int, 2022663722842696226566516634448073129nat, 56595372768643252414756550269586649689506833097576318335111067712315500int, 1, 30056300780503643203644397647079781430258925212711859114741973063784690int);
    lemma_powmod_step(2, 74058212732561358302231226437062788676166966415465897661863160754340907int, 4045327445685392453133033268896146259nat, 30056300780503643203644397647079781430258925212711859114741973063784690int, 0, 27419141314004053291913810278879109179299178368954261483346656979448120int);
    lemma_powmod_step(2, 74058212732561358302231226437062788676166966415465897661863160754340907int, 8090654891370784906266066537792292518nat, 27419141314004053291913810278879109179299178368954261483346656979448120int, 1, 12063920456340733559940633257347405768381685904496783940105413943649639int);
    lemma_powmod_step(2, 74058212732561358302231226437062788676166966415465897661863160754340907int, 16181309782741569812532133075584585037nat, 12063920456340733559940633257347405768381685904496783940105413943649639int, 1, 24797567845676868074171419313165132618206104540910806677675822696305499int);
    lemma_powmod_step(2, 74058212732561358302231226437062788676166966415465897661863160754340907int, 32362619565483139625064266151169170075nat, 24797567845676868074171419313165132618206104540910806677675822696305499int, 1, 11369133902391326800984740458443802916310686267983811140363334320516598int);
    lemma_powmod_step(2, 74058212732561358302231226437062788676166966415465897661863160754340907int, 64725239130966279250128532302338340151nat, 11369133902391326800984740458443802916310686267983811140363334320516598int, 1, 9593544235893070728607248550152751924894994110997641860974336309487045int);
    lemma_powmod_step(2, 74058212732561358302231226437062788676166966415465897661863160754340907int, 129450478261932558500257064604676680303nat, 9593544235893070728607248550152751924894994110997641860974336309487045int, 1, 58820314247261865624162448137636526766350100325640240631466088008944418int);
    lemma_powmod_step(2, 74058212732561358302231226437062788676166966415465897661863160754340907int, 258900956523865117000514129209353360607nat, 58820314247261865624162448137636526766350100325640240631466088008944418int, 1, 30096488851720569166912879271355183770022389122751561244788865680432055int);
    lemma_powmod_step(2, 74058212732561358302231226437062788676166966415465897661863160754340907int, 517801913047730234001028258418706721215nat, 30096488851720569166912879271355183770022389122751561244788865680432055int, 0, 65657168382830510540599222404596902550980984518772476486404062096014903int);
    lemma_powmod_step(2, 74058212732561358302231226437062788676166966415465897661863160754340907int, 1035603826095460468002056516837413442430nat, 65657168382830510540599222404596902550980984518772476486404062096014903int, 0, 39819372103248824747245529805445561249287114430350443179898837036961040int);
    lemma_powmod_step(2, 74058212732561358302231226437062788676166966415465897661863160754340907int, 2071207652190920936004113033674826884860nat, 39819372103248824747245529805445561249287114430350443179898837036961040int, 1, 68923843940780563111758015619109489765566399308997544480235260690101267int);
    lemma_powmod_step(2, 74058212732561358302231226437062788676166966415465897661863160754340907int, 4142415304381841872008226067349653769721nat, 68923843940780563111758015619109489765566399308997544480235260690101267int, 0, 8200159394654061208333311610396021704188931228974317396895779880630131int);
    lemma_powmod_step(2, 74058212732561358302231226437062788676166966415465897661863160754340907int, 8284830608763683744016452134699307539442nat, 8200159394654061208333311610396021704188931228974317396895779880630131int, 0, 34188891334318402011530257820669237506705864840109148670831996246445873int);
    lemma_powmod_step(2, 74058212732561358302231226437062788676166966415465897661863160754340907int, 16569661217527367488032904269398615078884nat, 34188891334318402011530257820669237506705864840109148670831996246445873int, 0, 6299455977334066485644370251201465799704309257504861959864763593229120int);
    lemma_powmod_step(2, 74058212732561358302231226437062788676166966415465897661863160754340907int, 33139322435054734976065808538797230157768nat, 6299455977334066485644370251201465799704309257504861959864763593229120int, 0, 8685270609702073512410921152281967143032322765263586153225639602226889int);
    lemma_powmod_step(2, 74058212732561358302231226437062788676166966415465897661863160754340907int, 66278644870109469952131617077594460315536nat, 8685270609702073512410921152281967143032322765263586153225639602226889int, 1, 68829770041489141331960995938117237906815968985517272364851440642670311int);
    lemma_powmod_step(2, 74058212732561358302231226437062788676166966415465897661863160754340907int, 132557289740218939904263234155188920631073nat, 68829770041489141331960995938117237906815968985517272364851440642670311int, 1, 64543697623811910393425744003527582598449096844138540332851144743479411int);
    lemma_powmod_step(2, 74058212732561358302231226437062788676166966415465897661863160754340907int, 265114579480437879808526468310377841262147nat, 64543697623811910393425744003527582598449096844138540332851144743479411int, 0, 8054217163522976476043677938219932803794319680835441224450411231029170int);
    lemma_powmod_step(2, 74058212732561358302231226437062788676166966415465897661863160754340907int, 530229158960875759617052936620755682524294nat, 8054217163522976476043677938219932803794319680835441224450411231029170int, 0, 8136244786982255028638223711044456135507228049677726922877220395926523int);
    lemma_powmod_step(2, 74058212732561358302231226437062788676166966415465897661863160754340907int, 1060458317921751519234105873241511365048588nat, 8136244786982255028638223711044456135507228049677726922877220395926523int, 0, 4834182946114296785655016916927671222026283199483121752994957157977108int);
    lemma_powmod_step(2, 74058212732561358302231226437062788676166966415465897661863160754340907int, 2120916635843503038468211746483022730097176nat, 4834182946114296785655016916927671222026283199483121752994957157977108int, 0, 21687019129789067686269330254211465332507032259229362553000539703452739int);
    lemma_powmod_step(2, 74058212732561358302231226437062788676166966415465897661863160754340907int, 4241833271687006076936423492966045460194352nat, 21687019129789067686269330254211465332507032259229362553000539703452739int, 0, 63897372098209067532677646975768683861542826146038210576988811524418521int);
    lemma_powmod_step(2, 74058212732561358302231226437062788676166966415465897661863160754340907int, 8483666543374012153872846985932090920388704nat, 63897372098209067532677646975768683861542826146038210576988811524418521int, 0, 71162148214155687317828358991667069212724079205861370550717348665841518int);
    lemma_powmod_step(2, 74058212732561358302231226437062788676166966415465897661863160754340907int, 16967333086748024307745693971864181840777408nat, 71162148214155687317828358991667069212724079205861370550717348665841518int, 0, 19977489922355009388761557146946377972478539052809142920666728380614761int);
    lemma_powmod_step(2, 74058212732561358302231226437062788676166966415465897661863160754340907int, 33934666173496048615491387943728363681554816nat, 19977489922355009388761557146946377972478539052809142920666728380614761int, 1, 35599539541828190866437795713321430306102930084551979560102787792473011int);
    lemma_powmod_step(2, 74058212732561358302231226437062788676166966415465897661863160754340907int, 67869332346992097230982775887456727363109633nat, 35599539541828190866437795713321430306102930084551979560102787792473011int, 1, 38162980996722782481642627361559948296947971109791057787620249127463631int);
    lemma_powmod_step(2, 74058212732561358302231226437062788676166966415465897661863160754340907int, 135738664693984194461965551774913454726219267nat, 38162980996722782481642627361559948296947971109791057787620249127463631int, 0, 6712497536190138914945775932284499759190087990525587174491556632456968int);
    lemma_powmod_step(2, 74058212732561358302231226437062788676166966415465897661863160754340907int, 271477329387968388923931103549826909452438534nat, 6712497536190138914945775932284499759190087990525587174491556632456968int, 0, 42182401746474768987646157861291889851510260332497076389456731292575359int);
    lemma_powmod_step(2, 74058212732561358302231226437062788676166966415465897661863160754340907int, 542954658775936777847862207099653818904877068nat, 42182401746474768987646157861291889851510260332497076389456731292575359int, 0, 58728718920697598013303358937815494924785639055622037127823459937536385int);
    lemma_powmod_step(2, 74058212732561358302231226437062788676166966415465897661863160754340907int, 1085909317551873555695724414199307637809754136nat, 58728718920697598013303358937815494924785639055622037127823459937536385int, 0, 70582737611499905206076946350525144640077584062739001034951393999685146int);
    lemma_powmod_step(2, 74058212732561358302231226437062788676166966415465897661863160754340907int, 2171818635103747111391448828398615275619508272nat, 70582737611499905206076946350525144640077584062739001034951393999685146int, 1, 48887731829226836636853043586730904695868252352449797688962282599118269int);
    lemma_powmod_step(2, 74058212732561358302231226437062788676166966415465897661863160754340907int, 4343637270207494222782897656797230551239016545nat, 48887731829226836636853043586730904695868252352449797688962282599118269int, 1, 35628359922766328672722944370646582300245665088233959587386082080270990int);
    lemma_powmod_step(2, 74058212732561358302231226437062788676166966415465897661863160754340907int, 8687274540414988445565795313594461102478033091nat, 35628359922766328672722944370646582300245665088233959587386082080270990int, 1, 26218496832293082982648442318395124012786338566817784392347687306777574int);
    lemma_powmod_step(2, 74058212732561358302231226437062788676166966415465897661863160754340907int, 17374549080829976891131590627188922204956066183nat, 26218496832293082982648442318395124012786338566817784392347687306777574int, 0, 25028477414807771446059107490385658709203511856211942597031824472119780int);
    lemma_powmod_step(2, 74058212732561358302231226437062788676166966415465897661863160754340907int, 34749098161659953782263181254377844409912132366nat, 25028477414807771446059107490385658709203511856211942597031824472119780int, 0, 13566216236648270534645356100513248013156721066501723179511778812110999int);
    lemma_powmod_step(2, 74058212732561358302231226437062788676166966415465897661863160754340907int, 69498196323319907564526362508755688819824264732nat, 13566216236648270534645356100513248013156721066501723179511778812110999int, 1, 44983369701473970514231845907395189947705506090271943052109451677417690int);
    lemma_powmod_step(2, 74058212732561358302231226437062788676166966415465897661863160754340907int, 138996392646639815129052725017511377639648529465nat, 44983369701473970514231845907395189947705506090271943052109451677417690int, 1, 44954532503084332186164735310117562410509441585077033111615270813061724int);
    lemma_powmod_step(2, 74058212732561358302231226437062788676166966415465897661863160754340907int, 277992785293279630258105450035022755279297058931nat, 44954532503084332186164735310117562410509441585077033111615270813061724int, 1, 36416388165695332843519662538095847885220002407626518085368714052755913int);
    lemma_powmod_step(2, 74058212732561358302231226437062788676166966415465897661863160754340907int, 555985570586559260516210900070045510558594117863nat, 36416388165695332843519662538095847885220002407626518085368714052755913int, 1, 32405159896280315009564406702055327623809692584902149982457028446579564int);
    lemma_powmod_step(2, 74058212732561358302231226437062788676166966415465897661863160754340907int, 1111971141173118521032421800140091021117188235727nat, 32405159896280315009564406702055327623809692584902149982457028446579564int, 1, 20234234674579976969172185728103942599985340336092433490544717437589120int);
    lemma_powmod_step(2, 74058212732561358302231226437062788676166966415465897661863160754340907int, 2223942282346237042064843600280182042234376471455nat, 20234234674579976969172185728103942599985340336092433490544717437589120int, 1, 1551856224635000915124762837416739032234922858442965864543853287771095int);
    lemma_powmod_step(2, 74058212732561358302231226437062788676166966415465897661863160754340907int, 4447884564692474084129687200560364084468752942911nat, 1551856224635000915124762837416739032234922858442965864543853287771095int, 1, 3565340216813610486370645915629248693341584253912840713056535874570552int);
    lemma_powmod_step(2, 74058212732561358302231226437062788676166966415465897661863160754340907int, 8895769129384948168259374401120728168937505885823nat, 3565340216813610486370645915629248693341584253912840713056535874570552int, 0, 62979426460885915061365431040843738146269570601024581702434325947392051int);
    lemma_powmod_step(2, 74058212732561358302231226437062788676166966415465897661863160754340907int, 17791538258769896336518748802241456337875011771646nat, 62979426460885915061365431040843738146269570601024581702434325947392051int, 1, 63936115375221222322161255999698120356632062953591634144479752024314554int);
    lemma_powmod_step(2, 74058212732561358302231226437062788676166966415465897661863160754340907int, 35583076517539792673037497604482912675750023543293nat, 63936115375221222322161255999698120356632062953591634144479752024314554int, 1, 51122038117842972409233017395495511128042627526226214735624448067720555int);
    lemma_powmod_step(2, 74058212732561358302231226437062788676166966415465897661863160754340907int, 71166153035079585346074995208965825351500047086587nat, 51122038117842972409233017395495511128042627526226214735624448067720555int, 1, 22505068012702632913644738542208240003128984122762795532286487075329892int);
    lemma_powmod_step(2, 74058212732561358302231226437062788676166966415465897661863160754340907int, 142332306070159170692149990417931650703000094173175nat, 22505068012702632913644738542208240003128984122762795532286487075329892int, 1, 17264373910492603365415942070154006863880994594543406850680061374152234int);
    lemma_powmod_step(2, 74058212732561358302231226437062788676166966415465897661863160754340907int, 284664612140318341384299980835863301406000188346351nat, 17264373910492603365415942070154006863880994594543406850680061374152234int, 1, 53120720408260506575496775385163443367265955177336580499150310505024516int);
    lemma_powmod_step(2, 74058212732561358302231226437062788676166966415465897661863160754340907int, 569329224280636682768599961671726602812000376692703nat, 53120720408260506575496775385163443367265955177336580499150310505024516int, 0, 72499201625231179551657885032848873389902074146177215341572732592791921int);
    lemma_powmod_step(2, 74058212732561358302231226437062788676166966415465897661863160754340907int, 1138658448561273365537199923343453205624000753385406nat, 72499201625231179551657885032848873389902074146177215341572732592791921int, 1, 25065755155019444458045093767264825402475711210655204678596982050606315int);
    lemma_powmod_step(2, 74058212732561358302231226437062788676166966415465897661863160754340907int, 2277316897122546731074399846686906411248001506770813nat, 25065755155019444458045093767264825402475711210655204678596982050606315int, 1, 39769155235320663893430169155993365465101719703405510135758201386701650int);
    lemma_powmod_step(2, 74058212732561358302231226437062788676166966415465897661863160754340907int, 4554633794245093462148799693373812822496003013541627nat, 39769155235320663893430169155993365465101719703405510135758201386701650int, 1, 28727657386354761752312107978387321015376511780850386921743111318397612int);
    lemma_powmod_step(2, 74058212732561358302231226437062788676166966415465897661863160754340907int, 9109267588490186924297599386747625644992006027083255nat, 28727657386354761752312107978387321015376511780850386921743111318397612int, 0, 4619888313555081979486393037067881610911495831339501028646023270179317int);
    lemma_powmod_step(2, 74058212732561358302231226437062788676166966415465897661863160754340907int, 18218535176980373848595198773495251289984012054166510nat, 4619888313555081979486393037067881610911495831339501028646023270179317int, 1, 16831356354414406885462123979878593084674340391648717801459596748774518int);
    lemma_powmod_step(2, 74058212732561358302231226437062788676166966415465897661863160754340907int, 36437070353960747697190397546990502579968024108333021nat, 16831356354414406885462123979878593084674340391648717801459596748774518int, 1, 52801358941616668288981537968132438614323667299388891007338118718350922int);
    lemma_powmod_step(2, 74058212732561358302231226437062788676166966415465897661863160754340907int, 72874140707921495394380795093981005159936048216666043nat, 52801358941616668288981537968132438614323667299388891007338118718350922int, 1, 59608964464823713274016207331085900886241337319370062945279047802551440int);
    lemma_powmod_step(2, 74058212732561358302231226437062788676166966415465897661863160754340907int, 145748281415842990788761590187962010319872096433332087nat, 59608964464823713274016207331085900886241337319370062945279047802551440int, 1, 59217755264645971390411430986144766760261916185711260735922688381098937int);
    lemma_powmod_step(2, 74058212732561358302231226437062788676166966415465897661863160754340907int, 291496562831685981577523180375924020639744192866664175nat, 59217755264645971390411430986144766760261916185711260735922688381098937int, 0, 71989928356894974991945926758152237462208334497500647258146321322748387int);
    lemma_powmod_step(2, 74058212732561358302231226437062788676166966415465897661863160754340907int, 582993125663371963155046360751848041279488385733328350nat, 71989928356894974991945926758152237462208334497500647258146321322748387int, 1, 13080098338766563722043147799824390680241203398498470943610487209720077int);
    lemma_powmod_step(2, 74058212732561358302231226437062788676166966415465897661863160754340907int, 1165986251326743926310092721503696082558976771466656701nat, 13080098338766563722043147799824390680241203398498470943610487209720077int, 0, 50366660687963342066214195241331738400016478712605795091965648721912165int);
}

/// 74058212732561358302231226437062788676166966415465897661863160754340907 is prime: Pocklington's criterion with a = 2 and the prime factors 75445702479781427272750846543864801 and 31757755568855353 of n - 1.
proof fn lemma_prime_p74058212732561358302231226437062788676166966415465897661863160754340907()
    ensures
        is_prime(74058212732561358302231226437062788676166966415465897661863160754340907nat),
{
    lemma_prime_p75445702479781427272750846543864801();
    lemma_prime_p31757755568855353();
    lemma_pow_p74058212732561358302231226437062788676166966415465897661863160754340907_17();
    lemma_pow_p74058212732561358302231226437062788676166966415465897661863160754340907_18();
    lemma_pow_p74058212732561358302231226437062788676166966415465897661863160754340907_19();
    assert forall|f: nat| is_prime(f) && 74058212732561358302231226437062788676166966415465897661863160754340907nat % f == 0 implies #[trigger] ((f - 1) as nat % 2395986178073482737347378734667165195040796357129753nat) == 0 by {
        lemma_pocklington_factor(74058212732561358302231226437062788676166966415465897661863160754340907nat, 2, 75445702479781427272750846543864801nat, 981609426360740691344999861639072106nat, 69490809710348678725736597923071784769591275419387514694139338586948360nat, (0int - 3594884028760813294013554313900112110983031014837035776973246868006387int), 3373176218490540264342856145421925747107023832160459778726734207506162int, f);
        lemma_pocklington_factor(74058212732561358302231226437062788676166966415465897661863160754340907nat, 2, 31757755568855353nat, 2331972502653487852620185443007392165117953542933313402nat, 50366660687963342066214195241331738400016478712605795091965648721912165nat, 18232248056023258384404751131439975669387062239511397558448549501188471int, (0int - 12399670712182237045161807348470345042472065485440476986607377034942449int), f);
        lemma_two_primes_divide(75445702479781427272750846543864801nat, 31757755568855353nat, (f - 1) as nat);
    }
    lemma_prime_by_factor(74058212732561358302231226437062788676166966415465897661863160754340907nat, 2395986178073482737347378734667165195040796357129753nat);
}

proof fn lemma_pow_curve_20()
    ensures
        pow(2, 57896044618658097711785492504343953926634992332820282019728792003956564819948nat) % 57896044618658097711785492504343953926634992332820282019728792003956564819949int == 1int,
{
    lemma_pow1(2);
    lemma_small_mod(2, 57896044618658097711785492504343953926634992332820282019728792003956564819949nat);
    lemma_powmod_step(2, 57896044618658097711785492504343953926634992332820282019728792003956564819949int, 1nat, 2int, 1, 8int);
    lemma_powmod_step(2, 57896044618658097711785492504343953926634992332820282019728792003956564819949int, 3nat, 8int, 1, 128int);
    lemma_powmod_step(2, 57896044618658097711785492504343953926634992332820282019728792003956564819949int, 7nat, 128int, 1, 32768int);
    lemma_powmod_step(2, 57896044618658097711785492504343953926634992332820282019728792003956564819949int, 15nat, 32768int, 1, 2147483648int);
    lemma_powmod_step(2, 57896044618658097711785492504343953926634992332820282019728792003956564819949int, 31nat, 2147483648int, 1, 9223372036854775808int);
    lemma_powmod_step(2, 57896044618658097711785492504343953926634992332820282019728792003956564819949int, 63nat, 9223372036854775808int, 1, 170141183460469231731687303715884105728int);
    lemma_powmod_step(2, 57896044618658097711785492504343953926634992332820282019728792003956564819949int, 127nat, 170141183460469231731687303715884105728int, 1, 19int);
    lemma_powmod_step(2, 57896044618658097711785492504343953926634992332820282019728792003956564819949int, 255nat, 19int, 1, 722int);
    lemma_powmod_step(2, 57896044618658097711785492504343953926634992332820282019728792003956564819949int, 511nat, 722int, 1, 1042568int);
    lemma_powmod_step(2, 57896044618658097711785492504343953926634992332820282019728792003956564819949int, 1023nat, 1042568int, 1, 2173896069248int);
    lemma_powmod_step(2, 57896044618658097711785492504343953926634992332820282019728792003956564819949int, 2047nat, 2173896069248int, 1, 9451648239783810422571008int);
    lemma_powmod_step(2, 57896044618658097711785492504343953926634992332820282019728792003956564819949int, 4095nat, 9451648239783810422571008int, 1, 178667308897216803844041172019681532254433604272128int);
    lemma_powmod_step(2, 57896044618658097711785492504343953926634992332820282019728792003956564819949int, 8191nat, 178667308897216803844041172019681532254433604272128int, 1, 5224276227137439182359211610032770964119227448329156370456386700117210870322int);
    lemma_powmod_step(2, 57896044618658097711785492504343953926634992332820282019728792003956564819949int, 16383nat, 5224276227137439182359211610032770964119227448329156370456386700117210870322int, 1, 14046422762284079012395795304813587913913707185210629010741763570782359982906int);
    lemma_powmod_step(2, 57896044618658097711785492504343953926634992332820282019728792003956564819949int, 32767nat, 14046422762284079012395795304813587913913707185210629010741763570782359982906int, 1, 57667402193205334524132346572890988529514358996637946074273776214954518058325int);
    lemma_powmod_step(2, 57896044618658097711785492504343953926634992332820282019728792003956564819949int, 65535nat, 57667402193205334524132346572890988529514358996637946074273776214954518058325int, 1, 6282583251470661375988401844536932193162997771953941038931304321688160879093int);
    lemma_powmod_step(2, 57896044618658097711785492504343953926634992332820282019728792003956564819949int, 131071nat, 6282583251470661375988401844536932193162997771953941038931304321688160879093int, 1, 41773579711171363526115061832776734394027191205387144658354332233763888087437int);
    lemma_powmod_step(2, 57896044618658097711785492504343953926634992332820282019728792003956564819949int, 262143nat, 41773579711171363526115061832776734394027191205387144658354332233763888087437int, 1, 12423445338605615203288152012494886359718374004368866621880955284358764908644int);
    lemma_powmod_step(2, 57896044618658097711785492504343953926634992332820282019728792003956564819949int, 524287nat, 12423445338605615203288152012494886359718374004368866621880955284358764908644int, 1, 31860177317140150806945610515978157008538745288633840599826077183006098902229int);
    lemma_powmod_step(2, 57896044618658097711785492504343953926634992332820282019728792003956564819949int, 1048575nat, 31860177317140150806945610515978157008538745288633840599826077183006098902229int, 1, 29965682538202139238154452199528621436240239400679311591035909128474666598167int);
    lemma_powmod_step(2, 57896044618658097711785492504343953926634992332820282019728792003956564819949int, 2097151nat, 29965682538202139238154452199528621436240239400679311591035909128474666598167int, 1, 37220419053942053202281425929749818891562230118522756619478076890995066343852int);
    lemma_powmod_step(2, 57896044618658097711785492504343953926634992332820282019728792003956564819949int, 4194303nat, 37220419053942053202281425929749818891562230118522756619478076890995066343852int, 1, 41673073471405172056591865107464322704643582559670806345915694214728927557751int);
    lemma_powmod_step(2, 57896044618658097711785492504343953926634992332820282019728792003956564819949int, 8388607nat, 41673073471405172056591865107464322704643582559670806345915694214728927557751int, 1, 14357806875099573081046010407345500900557142388859621890028323395882441450808int);
    lemma_powmod_step(2, 57896044618658097711785492504343953926634992332820282019728792003956564819949int, 16777215nat, 14357806875099573081046010407345500900557142388859621890028323395882441450808int, 1, 55874371979775216649385573191891013441786433360772204296104158392582684667764int);
    lemma_powmod_step(2, 57896044618658097711785492504343953926634992332820282019728792003956564819949int, 33554431nat, 55874371979775216649385573191891013441786433360772204296104158392582684667764int, 1, 8456664400796649213982160158192303565222228470151974305050350702246773000909int);
    lemma_powmod_step(2, 57896044618658097711785492504343953926634992332820282019728792003956564819949int, 67108863nat, 8456664400796649213982160158192303565222228470151974305050350702246773000909int, 1, 24730223749460300751989297794801363965226145514383745241035203824332555230159int);
    lemma_powmod_step(2, 57896044618658097711785492504343953926634992332820282019728792003956564819949int, 134217727nat, 24730223749460300751989297794801363965226145514383745241035203824332555230159int, 1, 1444992902726793028090455788455824656657439623120520683073984908815343121527int);
    lemma_powmod_step(2, 57896044618658097711785492504343953926634992332820282019728792003956564819949int, 268435455nat, 1444992902726793028090455788455824656657439623120520683073984908815343121527int, 1, 831549168060017679827524564160905062311858293960840749036373044768214189412int);
    lemma_powmod_step(2, 57896044618658097711785492504343953926634992332820282019728792003956564819949int, 536870911nat, 831549168060017679827524564160905062311858293960840749036373044768214189412int, 1, 31481322809643635092733215727019093627902277071797746415030516831487441729606int);
    lemma_powmod_step(2, 57896044618658097711785492504343953926634992332820282019728792003956564819949int, 1073741823nat, 31481322809643635092733215727019093627902277071797746415030516831487441729606int, 1, 37822683121557414710095899167460663848543473551043355343191920648275892017928int);
    lemma_powmod_step(2, 57896044618658097711785492504343953926634992332820282019728792003956564819949int, 2147483647nat, 37822683121557414710095899167460663848543473551043355343191920648275892017928int, 1, 26842178458649787340962453003574671094533543717061574803129506058013583129781int);
    lemma_powmod_step(2, 57896044618658097711785492504343953926634992332820282019728792003956564819949int, 4294967295nat, 26842178458649787340962453003574671094533543717061574803129506058013583129781int, 1, 31330852820456173428782778976368283529963853047524718861656227614838005523729int);
    lemma_powmod_step(2, 57896044618658097711785492504343953926634992332820282019728792003956564819949int, 8589934591nat, 31330852820456173428782778976368283529963853047524718861656227614838005523729int, 1, 1410276654374142921912072096561494027695175688319923564839723865256343965789int);
    lemma_powmod_step(2, 57896044618658097711785492504343953926634992332820282019728792003956564819949int, 17179869183nat, 1410276654374142921912072096561494027695175688319923564839723865256343965789int, 1, 31212145392841138827272572664870072556204669421137992332397064300137686270271int);
    lemma_powmod_step(2, 57896044618658097711785492504343953926634992332820282019728792003956564819949int, 34359738367nat, 31212145392841138827272572664870072556204669421137992332397064300137686270271int, 1, 2312173971283518761497399288637533573442699377561835361619694099549526195053int);
    lemma_powmod_step(2, 57896044618658097711785492504343953926634992332820282019728792003956564819949int, 68719476735nat, 2312173971283518761497399288637533573442699377561835361619694099549526195053int, 1, 45194746422429305393991597713404774341842436791187289784139113732634335346156int);
    lemma_powmod_step(2, 57896044618658097711785492504343953926634992332820282019728792003956564819949int, 137438953471nat, 45194746422429305393991597713404774341842436791187289784139113732634335346156int, 1, 4500455057296538258870812134262857057835079713243151331317076981750702941903int);
    lemma_powmod_step(2, 57896044618658097711785492504343953926634992332820282019728792003956564819949int, 274877906943nat, 4500455057296538258870812134262857057835079713243151331317076981750702941903int, 1, 1153787188972287606307593351232234866874600405081045113565790564094448148581int);
    lemma_powmod_step(2, 57896044618658097711785492504343953926634992332820282019728792003956564819949int, 549755813887nat, 1153787188972287606307593351232234866874600405081045113565790564094448148581int, 1, 40855687261085163679075598424383040827337295504513323885754385820034201474735int);
    lemma_powmod_step(2, 57896044618658097711785492504343953926634992332820282019728792003956564819949int, 1099511627775nat, 40855687261085163679075598424383040827337295504513323885754385820034201474735int, 1, 12725503070822417001986919429249837080124537636621394363448261139776490441667int);
    lemma_powmod_step(2, 57896044618658097711785492504343953926634992332820282019728792003956564819949int, 2199023255551nat, 12725503070822417001986919429249837080124537636621394363448261139776490441667int, 1, 37940261703003466530301850464572031464419938347212980071669803697540934661932int);
    lemma_powmod_step(2, 57896044618658097711785492504343953926634992332820282019728792003956564819949int, 4398046511103nat, 37940261703003466530301850464572031464419938347212980071669803697540934661932int, 1, 46131046929608509272025581854558611791457008173809605434919116803945800816936int);
    lemma_powmod_step(2, 57896044618658097711785492504343953926634992332820282019728792003956564819949int, 8796093022207nat, 46131046929608509272025581854558611791457008173809605434919116803945800816936int, 1, 38312950625439929102367916361458591974819898438434820790339388288940301753510int);
    lemma_powmod_step(2, 57896044618658097711785492504343953926634992332820282019728792003956564819949int, 17592186044415nat, 38312950625439929102367916361458591974819898438434820790339388288940301753510int, 1, 31618672342086410660348971369570541766697605926830740459969996597839974999480int);
    lemma_powmod_step(2, 57896044618658097711785492504343953926634992332820282019728792003956564819949int, 35184372088831nat, 31618672342086410660348971369570541766697605926830740459969996597839974999480int, 1, 46829877536710347127320434698448566838685447823836470715081022519073557726773int);
    lemma_powmod_step(2, 57896044618658097711785492504343953926634992332820282019728792003956564819949int, 70368744177663nat, 46829877536710347127320434698448566838685447823836470715081022519073557726773int, 1, 43507094491014531035987560149431406451208903237536722355187496825765599958787int);
    lemma_powmod_step(2, 57896044618658097711785492504343953926634992332820282019728792003956564819949int, 140737488355327nat, 43507094491014531035987560149431406451208903237536722355187496825765599958787int, 1, 57216950547371830068827719320242948460997140955201589226694955077452539901594int);
    lemma_powmod_step(2, 57896044618658097711785492504343953926634992332820282019728792003956564819949int, 281474976710655nat, 57216950547371830068827719320242948460997140955201589226694955077452539901594int, 1, 25208240221263666284244628749673508130280695788255750471349331134717349793909int);
    lemma_powmod_step(2, 57896044618658097711785492504343953926634992332820282019728792003956564819949int, 562949953421311nat, 25208240221263666284244628749673508130280695788255750471349331134717349793909int, 1, 29425705163516375894843110016508176480686115837392058736552579167725289780807int);
    lemma_powmod_step(2, 57896044618658097711785492504343953926634992332820282019728792003956564819949int, 1125899906842623nat, 29425705163516375894843110016508176480686115837392058736552579167725289780807int, 1, 45046667171868977845557852166343106279028118565024834275292957446337603010637int);
    lemma_powmod_step(2, 57896044618658097711785492504343953926634992332820282019728792003956564819949int, 2251799813685247nat, 45046667171868977845557852166343106279028118565024834275292957446337603010637int, 1, 33554756388950575406643830339888255401410403513173150599997540331253196160357int);
    lemma_powmod_step(2, 57896044618658097711785492504343953926634992332820282019728792003956564819949int, 4503599627370495nat, 33554756388950575406643830339888255401410403513173150599997540331253196160357int, 1, 44642026779291232422354173453679535107134480188421520711687674042532114506526int);
    lemma_powmod_step(2, 57896044618658097711785492504343953926634992332820282019728792003956564819949int, 9007199254740991nat, 44642026779291232422354173453679535107134480188421520711687674042532114506526int, 1, 14064963947811269298278524791691281423084908609845960596586683121720194887102int);
    lemma_powmod_step(2, 57896044618658097711785492504343953926634992332820282019728792003956564819949int, 18014398509481983nat, 14064963947811269298278524791691281423084908609845960596586683121720194887102int, 1, 42377152215527182989335328374971173558542091039079385017153574542379655083854int);
    lemma_powmod_step(2, 57896044618658097711785492504343953926634992332820282019728792003956564819949int, 36028797018963967nat, 42377152215527182989335328374971173558542091039079385017153574542379655083854int, 1, 21847452534710602092746359412823104712261255210105361772448459469926903743917int);
    lemma_powmod_step(2, 57896044618658097711785492504343953926634992332820282019728792003956564819949int, 72057594037927935nat, 21847452534710602092746359412823104712261255210105361772448459469926903743917int, 1, 51233491304434306593820827809579342932574496836920566022732946117164516405071int);
    lemma_powmod_step(2, 57896044618658097711785492504343953926634992332820282019728792003956564819949int, 144115188075855871nat, 51233491304434306593820827809579342932574496836920566022732946117164516405071int, 1, 3544437534908314905125170100574045874120208348111117397610725049021502447740int);
    lemma_powmod_step(2, 57896044618658097711785492504343953926634992332820282019728792003956564819949int, 288230376151711743nat, 3544437534908314905125170100574045874120208348111117397610725049021502447740int, 1, 11031103431658649564284950039691621335441819141482003785330424283625700483782int);
    lemma_powmod_step(2, 57896044618658097711785492504343953926634992332820282019728792003956564819949int, 576460752303423487nat, 11031103431658649564284950039691621335441819141482003785330424283625700483782int, 1, 22694371332599253447191450960592330978402329053668220499847134565853973622032int);
    lemma_powmod_step(2, 57896044618658097711785492504343953926634992332820282019728792003956564819949int, 1152921504606846975nat, 22694371332599253447191450960592330978402329053668220499847134565853973622032int, 1, 28310783642159936751895284043735237400895841602549197481456743190793174377435int);
    lemma_powmod_step(2, 57896044618658097711785492504343953926634992332820282019728792003956564819949int, 2305843009213693951nat, 28310783642159936751895284043735237400895841602549197481456743190793174377435int, 1, 40774605092474466487059636332982967235493057760401563919383642614545645829152int);
    lemma_powmod_step(2, 57896044618658097711785492504343953926634992332820282019728792003956564819949int, 4611686018427387903nat, 40774605092474466487059636332982967235493057760401563919383642614545645829152int, 1, 29681671761315073482538582626460610693621576637624872798416464178705770446329int);
    lemma_powmod_step(2, 57896044618658097711785492504343953926634992332820282019728792003956564819949int, 9223372036854775807nat, 29681671761315073482538582626460610693621576637624872798416464178705770446329int, 1, 18878952571897396674442432668174851814068411255301696874725003248685998027586int);
    lemma_powmod_step(2, 57896044618658097711785492504343953926634992332820282019728792003956564819949int, 18446744073709551615nat, 18878952571897396674442432668174851814068411255301696874725003248685998027586int, 1, 50961823044044079682291874088886034062798460829831489998068398232543870548501int);
    lemma_powmod_step(2, 57896044618658097711785492504343953926634992332820282019728792003956564819949int, 36893488147419103231nat, 50961823044044079682291874088886034062798460829831489998068398232543870548501int, 1, 46281085050630773963913766411004831667293261619053526625279778566314907641505int);
    lemma_powmod_step(2, 57896044618658097711785492504343953926634992332820282019728792003956564819949int, 73786976294838206463nat, 46281085050630773963913766411004831667293261619053526625279778566314907641505int, 1, 42518445290574344389416482979224524143612826477025266152184200731679946271763int);
    lemma_powmod_step(2, 57896044618658097711785492504343953926634992332820282019728792003956564819949int, 147573952589676412927nat, 42518445290574344389416482979224524143612826477025266152184200731679946271763int, 1, 10776410042155387628757347139278587990459279206029733971475795250528422943868int);
    lemma_powmod_step(2, 57896044618658097711785492504343953926634992332820282019728792003956564819949int, 295147905179352825855nat, 10776410042155387628757347139278587990459279206029733971475795250528422943868int, 1, 57140289167386179571914958435061541047398071664847524067297069223469617526842int);
    lemma_powmod_step(2, 57896044618658097711785492504343953926634992332820282019728792003956564819949int, 590295810358705651711nat, 57140289167386179571914958435061541047398071664847524067297069223469617526842int, 1, 32267931274891655478184199467643527553561737611723686052487006347161512829603int);
    lemma_powmod_step(2, 57896044618658097711785492504343953926634992332820282019728792003956564819949int, 1180591620717411303423nat, 32267931274891655478184199467643527553561737611723686052487006347161512829603int, 1, 31270142707819730893125732811113788503899031967334786644522954160691301052736int);
    lemma_powmod_step(2, 57896044618658097711785492504343953926634992332820282019728792003956564819949int, 2361183241434822606847nat, 31270142707819730893125732811113788503899031967334786644522954160691301052736int, 1, 34258166528311316488034424742641032338801523995662611775475450041611407899968int);
    lemma_powmod_step(2, 57896044618658097711785492504343953926634992332820282019728792003956564819949int, 4722366482869645213695nat, 34258166528311316488034424742641032338801523995662611775475450041611407899968int, 1, 32701138785477294685022258595473138323480591694189213720300681212597505534727int);
    lemma_powmod_step(2, 57896044618658097711785492504343953926634992332820282019728792003956564819949int, 9444732965739290427391nat, 32701138785477294685022258595473138323480591694189213720300681212597505534727int, 1, 6551952651523179037334401176720959874396649372538283057572150954033323362809int);
    lemma_powmod_step(2, 57896044618658097711785492504343953926634992332820282019728792003956564819949int, 18889465931478580854783nat, 6551952651523179037334401176720959874396649372538283057572150954033323362809int, 1, 2265485014633511331062933614384272003015725064121437119583661948537437760177int);
    lemma_powmod_step(2, 57896044618658097711785492504343953926634992332820282019728792003956564819949int, 37778931862957161709567nat, 2265485014633511331062933614384272003015725064121437119583661948537437760177int, 1, 21840033593278604262908027835695239214198655467837862420243244211695626839978int);
    lemma_powmod_step(2, 57896044618658097711785492504343953926634992332820282019728792003956564819949int, 75557863725914323419135nat, 21840033593278604262908027835695239214198655467837862420243244211695626839978int, 1, 544734975573418274629760138647082823830392536981593142938960017249991458010int);
    lemma_powmod_step(2, 57896044618658097711785492504343953926634992332820282019728792003956564819949int, 151115727451828646838271nat, 544734975573418274629760138647082823830392536981593142938960017249991458010int, 1, 43584484221788900868419546690254479977558121850951190428318500286667018333870int);
    lemma_powmod_step(2, 57896044618658097711785492504343953926634992332820282019728792003956564819949int, 302231454903657293676543nat, 43584484221788900868419546690254479977558121850951190428318500286667018333870int, 1, 49591944006784683262192128848541511732298204188838084179687636006996535288764int);
    lemma_powmod_step(2, 57896044618658097711785492504343953926634992332820282019728792003956564819949int, 604462909807314587353087nat, 49591944006784683262192128848541511732298204188838084179687636006996535288764int, 1, 20756486169383920521134455532562552711687687217901827738778514137285634944158int);
    lemma_powmod_step(2, 57896044618658097711785492504343953926634992332820282019728792003956564819949int, 1208925819614629174706175nat, 20756486169383920521134455532562552711687687217901827738778514137285634944158int, 1, 43765620297419971205843694015456769443004566965438152645146172353629561008700int);
    lemma_powmod_step(2, 57896044618658097711785492504343953926634992332820282019728792003956564819949int, 2417851639229258349412351nat, 43765620297419971205843694015456769443004566965438152645146172353629561008700int, 1, 34446819942962459076117508892498008554615060722037806425794218891933501941464int);
    lemma_powmod_step(2, 57896044618658097711785492504343953926634992332820282019728792003956564819949int, 4835703278458516698824703nat, 34446819942962459076117508892498008554615060722037806425794218891933501941464int, 1, 17428871526260863785429713356690096210201905366964099854960834977827949018226int);
    lemma_powmod_step(2, 57896044618658097711785492504343953926634992332820282019728792003956564819949int, 9671406556917033397649407nat, 17428871526260863785429713356690096210201905366964099854960834977827949018226int, 1, 48984009914529255597717947851481220773766393842112514106411440539177103850712int);
    lemma_powmod_step(2, 57896044618658097711785492504343953926634992332820282019728792003956564819949int, 19342813113834066795298815nat, 48984009914529255597717947851481220773766393842112514106411440539177103850712int, 1, 34173355633475482035240025096660577257963197104544359244241478442929630901715int);
    lemma_powmod_step(2, 57896044618658097711785492504343953926634992332820282019728792003956564819949int, 38685626227668133590597631nat, 34173355633475482035240025096660577257963197104544359244241478442929630901715int, 1, 839549009537373727335591448127933459387573416171681425111262846257465607395int);
    lemma_powmod_step(2, 57896044618658097711785492504343953926634992332820282019728792003956564819949int, 77371252455336267181195263nat, 839549009537373727335591448127933459387573416171681425111262846257465607395int, 1, 30924531555065913850500907411981598969540926802104713979980629951941826051320int);
    lemma_powmod_step(2, 57896044618658097711785492504343953926634992332820282019728792003956564819949int, 154742504910672534362390527nat, 30924531555065913850500907411981598969540926802104713979980629951941826051320int, 1, 10206601475148846935039781527637194584781325524341657018546582116449603416692int);
    lemma_powmod_step(2, 57896044618658097711785492504343953926634992332820282019728792003956564819949int, 309485009821345068724781055nat, 10206601475148846935039781527637194584781325524341657018546582116449603416692int, 1, 10078996197941591827521117654050648724757670787365913398510810294488290330678int);
    lemma_powmod_step(2, 57896044618658097711785492504343953926634992332820282019728792003956564819949int, 618970019642690137449562111nat, 10078996197941591827521117654050648724757670787365913398510810294488290330678int, 1, 24829494668832271851873095263695645243787012425653556421762256145675278781242int);
    lemma_powmod_step(2, 57896044618658097711785492504343953926634992332820282019728792003956564819949int, 1237940039285380274899124223nat, 24829494668832271851873095263695645243787012425653556421762256145675278781242int, 1, 7738230911551345549198896152119266338804972681543835554519681511733634936430int);
    lemma_powmod_step(2, 57896044618658097711785492504343953926634992332820282019728792003956564819949int, 2475880078570760549798248447nat, 7738230911551345549198896152119266338804972681543835554519681511733634936430int, 1, 28386134145047664064908648067853568489164700854806897628919141988772787201647int);
    lemma_powmod_step(2, 57896044618658097711785492504343953926634992332820282019728792003956564819949int, 4951760157141521099596496895nat, 28386134145047664064908648067853568489164700854806897628919141988772787201647int, 1, 46946574363901951083065463873840241654700729642342945764501467377662918674888int);
    lemma_powmod_step(2, 57896044618658097711785492504343953926634992332820282019728792003956564819949int, 9903520314283042199192993791nat, 46946574363901951083065463873840241654700729642342945764501467377662918674888int, 1, 55660232023739941517405710433965571046517923154926197258950504889269991229746int);
    lemma_powmod_step(2, 57896044618658097711785492504343953926634992332820282019728792003956564819949int, 19807040628566084398385987583nat, 55660232023739941517405710433965571046517923154926197258950504889269991229746int, 1, 19328068596642071616388258773760056600004400873025819700775715201434807731307int);
    lemma_powmod_step(2, 57896044618658097711785492504343953926634992332820282019728792003956564819949int, 39614081257132168796771975167nat, 19328068596642071616388258773760056600004400873025819700775715201434807731307int, 1, 50474905824970365894909409390984680001117021966810417657380743844501021762936int);
    lemma_powmod_step(2, 57896044618658097711785492504343953926634992332820282019728792003956564819949int, 79228162514264337593543950335nat, 50474905824970365894909409390984680001117021966810417657380743844501021762936int, 1, 31033228444585348421315759418180536040465828339768681257889441578444681097249int);
    lemma_powmod_step(2, 57896044618658097711785492504343953926634992332820282019728792003956564819949int, 158456325028528675187087900671nat, 31033228444585348421315759418180536040465828339768681257889441578444681097249int, 1, 34893493536391011707119872334858521129496918020628390137352446654800704427635int);
    lemma_powmod_step(2, 57896044618658097711785492504343953926634992332820282019728792003956564819949int, 316912650057057350374175801343nat, 34893493536391011707119872334858521129496918020628390137352446654800704427635int, 1, 33959849040268441603383559630429610870692267676446120304775157931210777468404int);
    lemma_powmod_step(2, 57896044618658097711785492504343953926634992332820282019728792003956564819949int, 633825300114114700748351602687nat, 33959849040268441603383559630429610870692267676446120304775157931210777468404int, 1, 54432116579986566612700064865178477388249008452809642039202947956959208982782int);
    lemma_powmod_step(2, 57896044618658097711785492504343953926634992332820282019728792003956564819949int, 1267650600228229401496703205375nat, 54432116579986566612700064865178477388249008452809642039202947956959208982782int, 1, 24977296195056901874042652720105099310444481248060662814903730573525270877231int);
    lemma_powmod_step(2, 57896044618658097711785492504343953926634992332820282019728792003956564819949int, 2535301200456458802993406410751nat, 24977296195056901874042652720105099310444481248060662814903730573525270877231int, 1, 44666734350811345786922297534185848357330186680870171487507256750286031869603int);
    lemma_powmod_step(2, 57896044618658097711785492504343953926634992332820282019728792003956564819949int, 5070602400912917605986812821503nat, 44666734350811345786922297534185848357330186680870171487507256750286031869603int, 1, 43913945491668488238467437891642359526858952048146193627709874418675378428090int);
    lemma_powmod_step(2, 57896044618658097711785492504343953926634992332820282019728792003956564819949int, 10141204801825835211973625643007nat, 43913945491668488238467437891642359526858952048146193627709874418675378428090int, 1, 57608036939302764840478145776034576230768319873591038614247645218099795254457int);
    lemma_powmod_step(2, 57896044618658097711785492504343953926634992332820282019728792003956564819949int, 20282409603651670423947251286015nat, 57608036939302764840478145776034576230768319873591038614247645218099795254457int, 1, 12388985866120953976310377947444982970384487555830578790313727805310640105311int);
    lemma_powmod_step(2, 57896044618658097711785492504343953926634992332820282019728792003956564819949int, 40564819207303340847894502572031nat, 12388985866120953976310377947444982970384487555830578790313727805310640105311int, 1, 56452777568112233575728564218974371806371177993011520015533434823606779550888int);
    lemma_powmod_step(2, 57896044618658097711785492504343953926634992332820282019728792003956564819949int, 81129638414606681695789005144063nat, 56452777568112233575728564218974371806371177993011520015533434823606779550888int, 1, 27121771317718166130446342152088812480578842322560199196561157068188728683885int);
    lemma_powmod_step(2, 57896044618658097711785492504343953926634992332820282019728792003956564819949int, 162259276829213363391578010288127nat, 27121771317718166130446342152088812480578842322560199196561157068188728683885int, 1, 8693388228197790815718534177035537785053224711574691503741616077445171268206int);
    lemma_powmod_step(2, 57896044618658097711785492504343953926634992332820282019728792003956564819949int, 324518553658426726783156020576255nat, 8693388228197790815718534177035537785053224711574691503741616077445171268206int, 1, 7165800087628305419906348963162552686507119412646729856902501367281806014393int);
    lemma_powmod_step(2, 57896044618658097711785492504343953926634992332820282019728792003956564819949int, 649037107316853453566312041152511nat, 7165800087628305419906348963162552686507119412646729856902501367281806014393int, 1, 49792237624548631371459520503827467480723489230450235332529824117671677405156int);
    lemma_powmod_step(2, 57896044618658097711785492504343953926634992332820282019728792003956564819949int, 1298074214633706907132624082305023nat, 49792237624548631371459520503827467480723489230450235332529824117671677405156int, 1, 31811642783378886829211474911892627132032788008300638327977767020779768187124int);
    lemma_powmod_step(2, 57896044618658097711785492504343953926634992332820282019728792003956564819949int, 2596148429267413814265248164610047nat, 31811642783378886829211474911892627132032788008300638327977767020779768187124int, 1, 21880558264494216808287980994218397563141933685170264459882187058272291026063int);
    lemma_powmod_step(2, 57896044618658097711785492504343953926634992332820282019728792003956564819949int, 5192296858534827628530496329220095nat, 21880558264494216808287980994218397563141933685170264459882187058272291026063int, 1, 57587431105925644872911601351995929038311179672182140389836888104460665624418int);
    lemma_powmod_step(2, 57896044618658097711785492504343953926634992332820282019728792003956564819949int, 10384593717069655257060992658440191nat, 57587431105925644872911601351995929038311179672182140389836888104460665624418int, 1, 1852334911467617730563258363249118600141597140885538955656229673690870877083int);
    lemma_powmod_step(2, 57896044618658097711785492504343953926634992332820282019728792003956564819949int, 20769187434139310514121985316880383nat, 1852334911467617730563258363249118600141597140885538955656229673690870877083int, 1, 2999873641857064848050458994987355362871396067847211588725782548222771430780int);
    lemma_powmod_step(2, 57896044618658097711785492504343953926634992332820282019728792003956564819949int, 41538374868278621028243970633760767nat, 2999873641857064848050458994987355362871396067847211588725782548222771430780int, 1, 56741858940553540454691345612168397481200062484931002208351244857929594532120int);
    lemma_powmod_step(2, 57896044618658097711785492504343953926634992332820282019728792003956564819949int, 83076749736557242056487941267521535nat, 56741858940553540454691345612168397481200062484931002208351244857929594532120int, 1, 52983284024645604748356606426061694763976161113936548640232552828396605328781int);
    lemma_powmod_step(2, 57896044618658097711785492504343953926634992332820282019728792003956564819949int, 166153499473114484112975882535043071nat, 52983284024645604748356606426061694763976161113936548640232552828396605328781int, 1, 23441663550800467214817254139361687330701016758839580700761892247398777612688int);
    lemma_powmod_step(2, 57896044618658097711785492504343953926634992332820282019728792003956564819949int, 332306998946228968225951765070086143nat, 23441663550800467214817254139361687330701016758839580700761892247398777612688int, 1, 44219520063360469453149303383715684669581732282357224556220104279732889728319int);
    lemma_powmod_step(2, 57896044618658097711785492504343953926634992332820282019728792003956564819949int, 664613997892457936451903530140172287nat, 44219520063360469453149303383715684669581732282357224556220104279732889728319int, 1, 55937530409946316548552502116686273223393472796871774714777090375113360366142int);
    lemma_powmod_step(2, 57896044618658097711785492504343953926634992332820282019728792003956564819949int, 1329227995784915872903807060280344575nat, 55937530409946316548552502116686273223393472796871774714777090375113360366142int, 1, 4043360565791032338078027380609862533945144841446388649871217817879889873478int);
    lemma_powmod_step(2, 57896044618658097711785492504343953926634992332820282019728792003956564819949int, 2658455991569831745807614120560689151nat, 4043360565791032338078027380609862533945144841446388649871217817879889873478int, 1, 30004323796572083792199736105378546854862298935002078911621058436625125242273int);
    lemma_powmod_step(2, 57896044618658097711785492504343953926634992332820282019728792003956564819949int, 5316911983139663491615228241121378303nat, 30004323796572083792199736105378546854862298935002078911621058436625125242273int, 1, 21002727013096797169004675847215356244075625075770601455342047954896970189548int);
    lemma_powmod_step(2, 57896044618658097711785492504343953926634992332820282019728792003956564819949int, 10633823966279326983230456482242756607nat, 21002727013096797169004675847215356244075625075770601455342047954896970189548int, 1, 17683968136273031964748761461046074121640974398427507673212257537224433714631int);
    lemma_powmod_step(2, 57896044618658097711785492504343953926634992332820282019728792003956564819949int, 21267647932558653966460912964485513215nat, 17683968136273031964748761461046074121640974398427507673212257537224433714631int, 1, 33670049901019569500871006427074058907676259723424101617658397332857683009187int);
    lemma_powmod_step(2, 57896044618658097711785492504343953926634992332820282019728792003956564819949int, 42535295865117307932921825928971026431nat, 33670049901019569500871006427074058907676259723424101617658397332857683009187int, 1, 11338079573254137144714295952580911299677830590163390051859627963489637121218int);
    lemma_powmod_step(2, 57896044618658097711785492504343953926634992332820282019728792003956564819949int, 85070591730234615865843651857942052863nat, 11338079573254137144714295952580911299677830590163390051859627963489637121218int, 1, 50503907384779849179363696987365820920550266664725850379172394941928600753056int);
    lemma_powmod_step(2, 57896044618658097711785492504343953926634992332820282019728792003956564819949int, 170141183460469231731687303715884105727nat, 50503907384779849179363696987365820920550266664725850379172394941928600753056int, 1, 26963434268030124490232869225365333943046998147329985868172663616110233431931int);
    lemma_powmod_step(2, 57896044618658097711785492504343953926634992332820282019728792003956564819949int, 340282366920938463463374607431768211455nat, 26963434268030124490232869225365333943046998147329985868172663616110233431931int, 1, 4187519072817056328568485486024279769409738840626811667464950563644469086640int);
    lemma_powmod_step(2, 57896044618658097711785492504343953926634992332820282019728792003956564819949int, 680564733841876926926749214863536422911nat, 4187519072817056328568485486024279769409738840626811667464950563644469086640int, 1, 7107064703472137553390016727696887278224065643217254122925776710931760452839int);
    lemma_powmod_step(2, 57896044618658097711785492504343953926634992332820282019728792003956564819949int, 1361129467683753853853498429727072845823nat, 7107064703472137553390016727696887278224065643217254122925776710931760452839int, 1, 29496294275899497481912582965637454402090666302592967900353443089829135066828int);
    lemma_powmod_step(2, 57896044618658097711785492504343953926634992332820282019728792003956564819949int, 2722258935367507707706996859454145691647nat, 29496294275899497481912582965637454402090666302592967900353443089829135066828int, 1, 50000476100785037372762746889064864080695006262063619269247590084856389364511int);
    lemma_powmod_step(2, 57896044618658097711785492504343953926634992332820282019728792003956564819949int, 5444517870735015415413993718908291383295nat, 50000476100785037372762746889064864080695006262063619269247590084856389364511int, 1, 31135492015806444414737471008134301620896546760764129796378474588803284032539int);
    lemma_powmod_step(2, 57896044618658097711785492504343953926634992332820282019728792003956564819949int, 10889035741470030830827987437816582766591nat, 31135492015806444414737471008134301620896546760764129796378474588803284032539int, 1, 46812062959751952380575244630234810940688005458028127061524926515372476693302int);
    lemma_powmod_step(2, 57896044618658097711785492504343953926634992332820282019728792003956564819949int, 21778071482940061661655974875633165533183nat, 46812062959751952380575244630234810940688005458028127061524926515372476693302int, 1, 40106794658385117354770859867621150384110113681558623316461986703750067679724int);
    lemma_powmod_step(2, 57896044618658097711785492504343953926634992332820282019728792003956564819949int, 43556142965880123323311949751266331066367nat, 40106794658385117354770859867621150384110113681558623316461986703750067679724int, 1, 33417327200782650993787628772606431437902672847704516142353609196254157350836int);
    lemma_powmod_step(2, 57896044618658097711785492504343953926634992332820282019728792003956564819949int, 87112285931760246646623899502532662132735nat, 33417327200782650993787628772606431437902672847704516142353609196254157350836int, 1, 17648620390273356357020134462309692498714675943790013590705331000182812092417int);
    lemma_powmod_step(2, 57896044618658097711785492504343953926634992332820282019728792003956564819949int, 174224571863520493293247799005065324265471nat, 17648620390273356357020134462309692498714675943790013590705331000182812092417int, 1, 13112761563863023931459458615335431701999506154879951249469996812584060497067int);
    lemma_powmod_step(2, 57896044618658097711785492504343953926634992332820282019728792003956564819949int, 348449143727040986586495598010130648530943nat, 13112761563863023931459458615335431701999506154879951249469996812584060497067int, 1, 27824130243647834693943021692430694884199168506770451210322983763184031520809int);
    lemma_powmod_step(2, 57896044618658097711785492504343953926634992332820282019728792003956564819949int, 696898287454081973172991196020261297061887nat, 27824130243647834693943021692430694884199168506770451210322983763184031520809int, 1, 20214254819784530476572656051887077550238535948296280650423414391220058472235int);
    lemma_powmod_step(2, 57896044618658097711785492504343953926634992332820282019728792003956564819949int, 1393796574908163946345982392040522594123775nat, 20214254819784530476572656051887077550238535948296280650423414391220058472235int, 1, 9071231205899977564151271366498780104845740454626553539977526889129436116728int);
    lemma_powmod_step(2, 57896044618658097711785492504343953926634992332820282019728792003956564819949int, 2787593149816327892691964784081045188247551nat, 9071231205899977564151271366498780104845740454626553539977526889129436116728int, 1, 31317987425793256789907905358765479205452620350800147189927333389226957110313int);
    lemma_powmod_step(2, 57896044618658097711785492504343953926634992332820282019728792003956564819949int, 5575186299632655785383929568162090376495103nat, 31317987425793256789907905358765479205452620350800147189927333389226957110313int, 1, 1359025561427706785952284000887504036478567612089220490382823253603912706152int);
    lemma_powmod_step(2, 57896044618658097711785492504343953926634992332820282019728792003956564819949int, 11150372599265311570767859136324180752990207nat, 1359025561427706785952284000887504036478567612089220490382823253603912706152int, 1, 14398822984063074768968153532697637190471276264929534688614638524962533306867int);
    lemma_powmod_step(2, 57896044618658097711785492504343953926634992332820282019728792003956564819949int, 22300745198530623141535718272648361505980415nat, 14398822984063074768968153532697637190471276264929534688614638524962533306867int, 1, 57536954078394898341561058596771979671434564551776157719280604183017138807529int);
    lemma_powmod_step(2, 57896044618658097711785492504343953926634992332820282019728792003956564819949int, 44601490397061246283071436545296723011960831nat, 57536954078394898341561058596771979671434564551776157719280604183017138807529int, 1, 40547459852214399804323473420694576591072346817955398647431362105468896192197int);
    lemma_powmod_step(2, 57896044618658097711785492504343953926634992332820282019728792003956564819949int, 89202980794122492566142873090593446023921663nat, 40547459852214399804323473420694576591072346817955398647431362105468896192197int, 1, 45971980921394367875587158654687982103435759201417385735055715081479896170116int);
    lemma_powmod_step(2, 57896044618658097711785492504343953926634992332820282019728792003956564819949int, 178405961588244985132285746181186892047843327nat, 45971980921394367875587158654687982103435759201417385735055715081479896170116int, 1, 27684301228299730442981507030630901095912202244823809002810756354766128710768int);
    lemma_powmod_step(2, 57896044618658097711785492504343953926634992332820282019728792003956564819949int, 356811923176489970264571492362373784095686655nat, 27684301228299730442981507030630901095912202244823809002810756354766128710768int, 1, 35757025066575975253653098954451781796433373486781824308350643199978034955497int);
    lemma_powmod_step(2, 57896044618658097711785492504343953926634992332820282019728792003956564819949int, 713623846352979940529142984724747568191373311nat, 35757025066575975253653098954451781796433373486781824308350643199978034955497int, 1, 38127182720244788537581039343329974557372141358442408506114334627016172570692int);
    lemma_powmod_step(2, 57896044618658097711785492504343953926634992332820282019728792003956564819949int, 1427247692705959881058285969449495136382746623nat, 38127182720244788537581039343329974557372141358442408506114334627016172570692int, 1, 13901224617088797557110006582934073320367546309008609680113272247555915635188int);
    lemma_powmod_step(2, 57896044618658097711785492504343953926634992332820282019728792003956564819949int, 2854495385411919762116571938898990272765493247nat, 13901224617088797557110006582934073320367546309008609680113272247555915635188int, 1, 5454410152077933777103100970173391160692099338506939472643174185754823698977int);
    lemma_powmod_step(2, 57896044618658097711785492504343953926634992332820282019728792003956564819949int, 5708990770823839524233143877797980545530986495nat, 5454410152077933777103100970173391160692099338506939472643174185754823698977int, 1, 55362729019363284635602246820605937821515778654018841355971440409296941798951int);
    lemma_powmod_step(2, 57896044618658097711785492504343953926634992332820282019728792003956564819949int, 11417981541647679048466287755595961091061972991nat, 55362729019363284635602246820605937821515778654018841355971440409296941798951int, 1, 21765073601240440394004195196733367356284140392914731226844435028259364975757int);
    lemma_powmod_step(2, 57896044618658097711785492504343953926634992332820282019728792003956564819949int, 22835963083295358096932575511191922182123945983nat, 21765073601240440394004195196733367356284140392914731226844435028259364975757int, 1, 6868468521684803207615437430387374804254365021580786674773294649260505261053int);
    lemma_powmod_step(2, 57896044618658097711785492504343953926634992332820282019728792003956564819949int, 45671926166590716193865151022383844364247891967nat, 6868468521684803207615437430387374804254365021580786674773294649260505261053int, 1, 21540161437867206792264745630437124108648831241490862309653559019023251050550int);
    lemma_powmod_step(2, 57896044618658097711785492504343953926634992332820282019728792003956564819949int, 91343852333181432387730302044767688728495783935nat, 21540161437867206792264745630437124108648831241490862309653559019023251050550int, 1, 23310579803174567687392393518795196592504696180061856406369418281530699461788int);
    lemma_powmod_step(2, 57896044618658097711785492504343953926634992332820282019728792003956564819949int, 182687704666362864775460604089535377456991567871nat, 23310579803174567687392393518795196592504696180061856406369418281530699461788int, 1, 9295663124364450797527547070745142724484968397426519232838479866529431499675int);
    lemma_powmod_step(2, 57896044618658097711785492504343953926634992332820282019728792003956564819949int, 365375409332725729550921208179070754913983135743nat, 9295663124364450797527547070745142724484968397426519232838479866529431499675int, 1, 26389076693310116141985250835199949026874418449444379430995625568753508958665int);
    lemma_powmod_step(2, 57896044618658097711785492504343953926634992332820282019728792003956564819949int, 730750818665451459101842416358141509827966271487nat, 26389076693310116141985250835199949026874418449444379430995625568753508958665int, 1, 41577931303125218655368411065379178664242088974509779353166293289040071305457int);
    lemma_powmod_step(2, 57896044618658097711785492504343953926634992332820282019728792003956564819949int, 1461501637330902918203684832716283019655932542975nat, 41577931303125218655368411065379178664242088974509779353166293289040071305457int, 1, 26581867791059424736998914131786935395247100185720215298147869473475247466289int);
    lemma_powmod_step(2, 57896044618658097711785492504343953926634992332820282019728792003956564819949int, 2923003274661805836407369665432566039311865085951nat, 26581867791059424736998914131786935395247100185720215298147869473475247466289int, 1, 55590360218998282887189888048440386046650429025517689767088323422846948382925int);
    lemma_powmod_step(2, 57896044618658097711785492504343953926634992332820282019728792003956564819949int, 5846006549323611672814739330865132078623730171903nat, 55590360218998282887189888048440386046650429025517689767088323422846948382925int, 1, 7138300081214773490902001799287249147252904381900996808424164052295966117771int);
    lemma_powmod_step(2, 57896044618658097711785492504343953926634992332820282019728792003956564819949int, 11692013098647223345629478661730264157247460343807nat, 7138300081214773490902001799287249147252904381900996808424164052295966117771int, 1, 21363423181746877609111268711041542253138779060801629243052671443405792697453int);
    lemma_powmod_step(2, 57896044618658097711785492504343953926634992332820282019728792003956564819949int, 23384026197294446691258957323460528314494920687615nat, 21363423181746877609111268711041542253138779060801629243052671443405792697453int, 1, 27935597705990857044596004281158840715176448634484849678803416174709500393307int);
    lemma_powmod_step(2, 57896044618658097711785492504343953926634992332820282019728792003956564819949int, 46768052394588893382517914646921056628989841375231nat, 27935597705990857044596004281158840715176448634484849678803416174709500393307int, 1, 35579438349793358381572025108442492934664453576748305360961308541578088690388int);
    lemma_powmod_step(2, 57896044618658097711785492504343953926634992332820282019728792003956564819949int, 93536104789177786765035829293842113257979682750463nat, 35579438349793358381572025108442492934664453576748305360961308541578088690388int, 1, 57866903068063127764661670395535172659072410669887183287178532001232342380240int);
    lemma_powmod_step(2, 57896044618658097711785492504343953926634992332820282019728792003956564819949int, 187072209578355573530071658587684226515959365500927nat, 57866903068063127764661670395535172659072410669887183287178532001232342380240int, 1, 43360846569293993820275693050384192156330769926392333168517301831384209752435int);
    lemma_powmod_step(2, 57896044618658097711785492504343953926634992332820282019728792003956564819949int, 374144419156711147060143317175368453031918731001855nat, 43360846569293993820275693050384192156330769926392333168517301831384209752435int, 1, 15684242169343610675938633510107053195079618631387286693842602453664090877259int);
    lemma_powmod_step(2, 57896044618658097711785492504343953926634992332820282019728792003956564819949int, 748288838313422294120286634350736906063837462003711nat, 15684242169343610675938633510107053195079618631387286693842602453664090877259int, 1, 1536504363613701847894867300414741110172459555250118742995152291136358200299int);
    lemma_powmod_step(2, 57896044618658097711785492504343953926634992332820282019728792003956564819949int, 1496577676626844588240573268701473812127674924007423nat, 1536504363613701847894867300414741110172459555250118742995152291136358200299int, 1, 10174754984538454556267894105915698025200616652384454510632651876057352397932int);
    lemma_powmod_step(2, 57896044618658097711785492504343953926634992332820282019728792003956564819949int, 2993155353253689176481146537402947624255349848014847nat, 10174754984538454556267894105915698025200616652384454510632651876057352397932int, 1, 53241440335614123920049335849618705599788617803539401677470731327189273355240int);
    lemma_powmod_step(2, 57896044618658097711785492504343953926634992332820282019728792003956564819949int, 5986310706507378352962293074805895248510699696029695nat, 53241440335614123920049335849618705599788617803539401677470731327189273355240int, 1, 14027931116174711974312877722162477075845082495311616644575421411282769600147int);
    lemma_powmod_step(2, 57896044618658097711785492504343953926634992332820282019728792003956564819949int, 11972621413014756705924586149611790497021399392059391nat, 14027931116174711974312877722162477075845082495311616644575421411282769600147int, 1, 6065461000593967686201644147469699507884414012396859043024075587031478402964int);
    lemma_powmod_step(2, 57896044618658097711785492504343953926634992332820282019728792003956564819949int, 23945242826029513411849172299223580994042798784118783nat, 6065461000593967686201644147469699507884414012396859043024075587031478402964int, 1, 16440926874779247207396427489514528874519454921103911874653412964701567546792int);
    lemma_powmod_step(2, 57896044618658097711785492504343953926634992332820282019728792003956564819949int, 47890485652059026823698344598447161988085597568237567nat, 16440926874779247207396427489514528874519454921103911874653412964701567546792int, 1, 6194970277937707253775099527297108592051974592490823042763801755464669391818int);
    lemma_powmod_step(2, 57896044618658097711785492504343953926634992332820282019728792003956564819949int, 95780971304118053647396689196894323976171195136475135nat, 6194970277937707253775099527297108592051974592490823042763801755464669391818int, 1, 684614496836416649787906379392285011927598899598562528098251400672931668907int);
    lemma_powmod_step(2, 57896044618658097711785492504343953926634992332820282019728792003956564819949int, 191561942608236107294793378393788647952342390272950271nat, 684614496836416649787906379392285011927598899598562528098251400672931668907int, 1, 54365033985168141306022265729958169761829617159194845758540630505539836345465int);
    lemma_powmod_step(2, 57896044618658097711785492504343953926634992332820282019728792003956564819949int, 383123885216472214589586756787577295904684780545900543nat, 54365033985168141306022265729958169761829617159194845758540630505539836345465int, 1, 41386377741921754056700424941473791974722792115338212604641688420019397375207int);
    lemma_powmod_step(2, 57896044618658097711785492504343953926634992332820282019728792003956564819949int, 766247770432944429179173513575154591809369561091801087nat, 41386377741921754056700424941473791974722792115338212604641688420019397375207int, 1, 53502266011507298565676768324199732940023720279442518681700110239273703126729int);
    lemma_powmod_step(2, 57896044618658097711785492504343953926634992332820282019728792003956564819949int, 1532495540865888858358347027150309183618739122183602175nat, 53502266011507298565676768324199732940023720279442518681700110239273703126729int, 1, 29769714498032076210166807474819013544447509023848694974789569031297101857592int);
    lemma_powmod_step(2, 57896044618658097711785492504343953926634992332820282019728792003956564819949int, 3064991081731777716716694054300618367237478244367204351nat, 29769714498032076210166807474819013544447509023848694974789569031297101857592int, 1, 6528249132286365709654196922569572509716464893905265972235628165028866286878int);
    lemma_powmod_step(2, 57896044618658097711785492504343953926634992332820282019728792003956564819949int, 6129982163463555433433388108601236734474956488734408703nat, 6528249132286365709654196922569572509716464893905265972235628165028866286878int, 1, 12854018797251641308374136387378939352483716320918111721110096356924659430186int);
    lemma_powmod_step(2, 57896044618658097711785492504343953926634992332820282019728792003956564819949int, 12259964326927110866866776217202473468949912977468817407nat, 12854018797251641308374136387378939352483716320918111721110096356924659430186int, 1, 24023237773304088355367946030695448843319069214091389862021789217161946282946int);
    lemma_powmod_step(2, 57896044618658097711785492504343953926634992332820282019728792003956564819949int, 24519928653854221733733552434404946937899825954937634815nat, 24023237773304088355367946030695448843319069214091389862021789217161946282946int, 1, 37008626383577036881806629661822850263240381849752111154573360970710289084464int);
    lemma_powmod_step(2, 57896044618658097711785492504343953926634992332820282019728792003956564819949int, 49039857307708443467467104868809893875799651909875269631nat, 37008626383577036881806629661822850263240381849752111154573360970710289084464int, 1, 40976972857154150938827157254409068204129712880595484192193128742204960992790int);
    lemma_powmod_step(2, 57896044618658097711785492504343953926634992332820282019728792003956564819949int, 98079714615416886934934209737619787751599303819750539263nat, 40976972857154150938827157254409068204129712880595484192193128742204960992790int, 1, 30460314274043604819673758530503676511725237214240063293831192481254650417190int);
    lemma_powmod_step(2, 57896044618658097711785492504343953926634992332820282019728792003956564819949int, 196159429230833773869868419475239575503198607639501078527nat, 30460314274043604819673758530503676511725237214240063293831192481254650417190int, 1, 48311673985348507728741468902012948953142664038330626952387585498656526855541int);
    lemma_powmod_step(2, 57896044618658097711785492504343953926634992332820282019728792003956564819949int, 392318858461667547739736838950479151006397215279002157055nat, 48311673985348507728741468902012948953142664038330626952387585498656526855541int, 1, 24233097835806840212876053465345452678284176986654458383856149761728159806764int);
    lemma_powmod_step(2, 57896044618658097711785492504343953926634992332820282019728792003956564819949int, 784637716923335095479473677900958302012794430558004314111nat, 24233097835806840212876053465345452678284176986654458383856149761728159806764int, 1, 44543206194479786795328863844863295531809228891211781783131460436919471891318int);
    lemma_powmod_step(2, 57896044618658097711785492504343953926634992332820282019728792003956564819949int, 1569275433846670190958947355801916604025588861116008628223nat, 44543206194479786795328863844863295531809228891211781783131460436919471891318int, 1, 53821164031703208189080431028209409696023511366568294270491627813890002137014int);
    lemma_powmod_step(2, 57896044618658097711785492504343953926634992332820282019728792003956564819949int, 3138550867693340381917894711603833208051177722232017256447nat, 53821164031703208189080431028209409696023511366568294270491627813890002137014int, 1, 32059910633176193622138024243719773757257401337919911903483392576788485259672int);
    lemma_powmod_step(2, 57896044618658097711785492504343953926634992332820282019728792003956564819949int, 6277101735386680763835789423207666416102355444464034512895nat, 32059910633176193622138024243719773757257401337919911903483392576788485259672int, 1, 51112254427615305009901759741924517510279757244838123682606985713533983665105int);
    lemma_powmod_step(2, 57896044618658097711785492504343953926634992332820282019728792003956564819949int, 12554203470773361527671578846415332832204710888928069025791nat, 51112254427615305009901759741924517510279757244838123682606985713533983665105int, 1, 48754557550952872105209550496347674417710959653730114307448477872931425810164int);
    lemma_powmod_step(2, 57896044618658097711785492504343953926634992332820282019728792003956564819949int, 25108406941546723055343157692830665664409421777856138051583nat, 48754557550952872105209550496347674417710959653730114307448477872931425810164int, 1, 36227438829045814509927442875215714798190109276434149535428280465454964479906int);
    lemma_powmod_step(2, 57896044618658097711785492504343953926634992332820282019728792003956564819949int, 50216813883093446110686315385661331328818843555712276103167nat, 36227438829045814509927442875215714798190109276434149535428280465454964479906int, 1, 38725988975554836836261693331247132583308376864819596228891641900046618530987int);
    lemma_powmod_step(2, 57896044618658097711785492504343953926634992332820282019728792003956564819949int, 100433627766186892221372630771322662657637687111424552206335nat, 38725988975554836836261693331247132583308376864819596228891641900046618530987int, 1, 45479349884507628301698123796250445596652345077353159483318819597649710961920int);
    lemma_powmod_step(2, 57896044618658097711785492504343953926634992332820282019728792003956564819949int, 200867255532373784442745261542645325315275374222849104412671nat, 45479349884507628301698123796250445596652345077353159483318819597649710961920int, 1, 43148221398861912654878150651583556894950920730774984615012326700886961205782int);
    lemma_powmod_step(2, 57896044618658097711785492504343953926634992332820282019728792003956564819949int, 401734511064747568885490523085290650630550748445698208825343nat, 43148221398861912654878150651583556894950920730774984615012326700886961205782int, 1, 50200440481698919585213819744643434144352553022329073818314918686710226422520int);
    lemma_powmod_step(2, 57896044618658097711785492504343953926634992332820282019728792003956564819949int, 803469022129495137770981046170581301261101496891396417650687nat, 50200440481698919585213819744643434144352553022329073818314918686710226422520int, 1, 32130093957348876535958107736349013334990574945634455035178054147542185674637int);
    lemma_powmod_step(2, 57896044618658097711785492504343953926634992332820282019728792003956564819949int, 1606938044258990275541962092341162602522202993782792835301375nat, 32130093957348876535958107736349013334990574945634455035178054147542185674637int, 1, 11056534755336441226498492808108261289195462485940569264063461083603937863743int);
    lemma_powmod_step(2, 57896044618658097711785492504343953926634992332820282019728792003956564819949int, 3213876088517980551083924184682325205044405987565585670602751nat, 11056534755336441226498492808108261289195462485940569264063461083603937863743int, 1, 5509472318170026184457828863391795017510754830936479629593488654910888123492int);
    lemma_powmod_step(2, 57896044618658097711785492504343953926634992332820282019728792003956564819949int, 6427752177035961102167848369364650410088811975131171341205503nat, 5509472318170026184457828863391795017510754830936479629593488654910888123492int, 1, 39182422482334497014118289882429877725228100176802129302739402859527968289071int);
    lemma_powmod_step(2, 57896044618658097711785492504343953926634992332820282019728792003956564819949int, 12855504354071922204335696738729300820177623950262342682411007nat, 39182422482334497014118289882429877725228100176802129302739402859527968289071int, 1, 31298399990674153193572642070113929186128749250418980644598906944843612558467int);
    lemma_powmod_step(2, 57896044618658097711785492504343953926634992332820282019728792003956564819949int, 25711008708143844408671393477458601640355247900524685364822015nat, 31298399990674153193572642070113929186128749250418980644598906944843612558467int, 1, 16016535929395975659978764171596312767014544623914800237889741581420795887397int);
    lemma_powmod_step(2, 57896044618658097711785492504343953926634992332820282019728792003956564819949int, 51422017416287688817342786954917203280710495801049370729644031nat, 16016535929395975659978764171596312767014544623914800237889741581420795887397int, 1, 6867356314802072500137672020365772398649811024958711628042637258408446576935int);
    lemma_powmod_step(2, 57896044618658097711785492504343953926634992332820282019728792003956564819949int, 102844034832575377634685573909834406561420991602098741459288063nat, 6867356314802072500137672020365772398649811024958711628042637258408446576935int, 1, 2623918248308615220828121720255052394918917448532756518915771777981733340549int);
    lemma_powmod_step(2, 57896044618658097711785492504343953926634992332820282019728792003956564819949int, 205688069665150755269371147819668813122841983204197482918576127nat, 2623918248308615220828121720255052394918917448532756518915771777981733340549int, 1, 27289357948726713611986542207589493182563159105075691984536234051570781506683int);
    lemma_powmod_step(2, 57896044618658097711785492504343953926634992332820282019728792003956564819949int, 411376139330301510538742295639337626245683966408394965837152255nat, 27289357948726713611986542207589493182563159105075691984536234051570781506683int, 1, 24779736756518239262134786564833979098176951288651987557576585047857040035462int);
    lemma_powmod_step(2, 57896044618658097711785492504343953926634992332820282019728792003956564819949int, 822752278660603021077484591278675252491367932816789931674304511nat, 24779736756518239262134786564833979098176951288651987557576585047857040035462int, 1, 44073974636539183643196518952896103138684389691110778399627147914726074797884int);
    lemma_powmod_step(2, 57896044618658097711785492504343953926634992332820282019728792003956564819949int, 1645504557321206042154969182557350504982735865633579863348609023nat, 44073974636539183643196518952896103138684389691110778399627147914726074797884int, 1, 57079518814717006129559040589390601886102144762720731787304697448910039485684int);
    lemma_powmod_step(2, 57896044618658097711785492504343953926634992332820282019728792003956564819949int, 3291009114642412084309938365114701009965471731267159726697218047nat, 57079518814717006129559040589390601886102144762720731787304697448910039485684int, 1, 3071949427213583281562656910526188114764181754740924459574672836798483880736int);
    lemma_powmod_step(2, 57896044618658097711785492504343953926634992332820282019728792003956564819949int, 6582018229284824168619876730229402019930943462534319453394436095nat, 3071949427213583281562656910526188114764181754740924459574672836798483880736int, 1, 17144314256986813274476140473712444112177023766797766200554335356044944813034int);
    lemma_powmod_step(2, 57896044618658097711785492504343953926634992332820282019728792003956564819949int, 13164036458569648337239753460458804039861886925068638906788872191nat, 17144314256986813274476140473712444112177023766797766200554335356044944813034int, 1, 3165891640717593200786762078156449118083566803391380297476050855428833748611int);
    lemma_powmod_step(2, 57896044618658097711785492504343953926634992332820282019728792003956564819949int, 26328072917139296674479506920917608079723773850137277813577744383nat, 3165891640717593200786762078156449118083566803391380297476050855428833748611int, 1, 54864376144835610778091815697625521774567190232236766343665203152016606956862int);
    lemma_powmod_step(2, 57896044618658097711785492504343953926634992332820282019728792003956564819949int, 52656145834278593348959013841835216159447547700274555627155488767nat, 54864376144835610778091815697625521774567190232236766343665203152016606956862int, 1, 38167929923336629992940764174428308519642977592094795664038841569520591249924int);
    lemma_powmod_step(2, 57896044618658097711785492504343953926634992332820282019728792003956564819949int, 105312291668557186697918027683670432318895095400549111254310977535nat, 38167929923336629992940764174428308519642977592094795664038841569520591249924int, 1, 40708934432730130651322167211264057559822842830536907232677053187710079408055int);
    lemma_powmod_step(2, 57896044618658097711785492504343953926634992332820282019728792003956564819949int, 210624583337114373395836055367340864637790190801098222508621955071nat, 40708934432730130651322167211264057559822842830536907232677053187710079408055int, 1, 11547632910069633913615370700207887367810604134713919823128354979068299091886int);
    lemma_powmod_step(2, 57896044618658097711785492504343953926634992332820282019728792003956564819949int, 421249166674228746791672110734681729275580381602196445017243910143nat, 11547632910069633913615370700207887367810604134713919823128354979068299091886int, 1, 9142642502628947595601055162406050501866612098636667730066404712196791034604int);
    lemma_powmod_step(2, 57896044618658097711785492504343953926634992332820282019728792003956564819949int, 842498333348457493583344221469363458551160763204392890034487820287nat, 9142642502628947595601055162406050501866612098636667730066404712196791034604int, 1, 4882997256204588887345417740635705617157621401990104841753515336715323289325int);
    lemma_powmod_step(2, 57896044618658097711785492504343953926634992332820282019728792003956564819949int, 1684996666696914987166688442938726917102321526408785780068975640575nat, 4882997256204588887345417740635705617157621401990104841753515336715323289325int, 1, 23831477938961091992659029161882590259549528906548330511742067278450904634668int);
    lemma_powmod_step(2, 57896044618658097711785492504343953926634992332820282019728792003956564819949int, 3369993333393829974333376885877453834204643052817571560137951281151nat, 23831477938961091992659029161882590259549528906548330511742067278450904634668int, 1, 56713486864942564343515026382452337645161272677378998056718354471378196670542int);
    lemma_powmod_step(2, 57896044618658097711785492504343953926634992332820282019728792003956564819949int, 6739986666787659948666753771754907668409286105635143120275902562303nat, 56713486864942564343515026382452337645161272677378998056718354471378196670542int, 1, 21316658154331738910193541779585055043469702896516072202627221661286878826881int);
    lemma_powmod_step(2, 57896044618658097711785492504343953926634992332820282019728792003956564819949int, 13479973333575319897333507543509815336818572211270286240551805124607nat, 21316658154331738910193541779585055043469702896516072202627221661286878826881int, 1, 24605409678848788938025967347965514085894017404791575956843964561310096170520int);
    lemma_powmod_step(2, 57896044618658097711785492504343953926634992332820282019728792003956564819949int, 26959946667150639794667015087019630673637144422540572481103610249215nat, 24605409678848788938025967347965514085894017404791575956843964561310096170520int, 1, 52690110670145470389354969733677398040905379530483294791374464377200528971309int);
    lemma_powmod_step(2, 57896044618658097711785492504343953926634992332820282019728792003956564819949int, 53919893334301279589334030174039261347274288845081144962207220498431nat, 52690110670145470389354969733677398040905379530483294791374464377200528971309int, 1, 12329658577085121505735788901738140674414910983404876297849933017120786593055int);
    lemma_powmod_step(2, 57896044618658097711785492504343953926634992332820282019728792003956564819949int, 107839786668602559178668060348078522694548577690162289924414440996863nat, 12329658577085121505735788901738140674414910983404876297849933017120786593055int, 1, 168274596723269311747058085710366988357898918760177840875994024352600093847int);
    lemma_powmod_step(2, 57896044618658097711785492504343953926634992332820282019728792003956564819949int, 215679573337205118357336120696157045389097155380324579848828881993727nat, 168274596723269311747058085710366988357898918760177840875994024352600093847int, 1, 47786050790763851049981906562182647077748863621709482674342791699566717530080int);
    lemma_powmod_step(2, 57896044618658097711785492504343953926634992332820282019728792003956564819949int, 431359146674410236714672241392314090778194310760649159697657763987455nat, 47786050790763851049981906562182647077748863621709482674342791699566717530080int, 1, 19503180772758402817567362257769427592749798537153604074569836368588198394859int);
    lemma_powmod_step(2, 57896044618658097711785492504343953926634992332820282019728792003956564819949int, 862718293348820473429344482784628181556388621521298319395315527974911nat, 19503180772758402817567362257769427592749798537153604074569836368588198394859int, 1, 16826699064328860228531004055853964690023742207467919279868379270196598769668int);
    lemma_powmod_step(2, 57896044618658097711785492504343953926634992332820282019728792003956564819949int, 1725436586697640946858688965569256363112777243042596638790631055949823nat, 16826699064328860228531004055853964690023742207467919279868379270196598769668int, 1, 32688828802654143177559518765903582606604909550033534751544165635592339447788int);
    lemma_powmod_step(2, 57896044618658097711785492504343953926634992332820282019728792003956564819949int, 3450873173395281893717377931138512726225554486085193277581262111899647nat, 32688828802654143177559518765903582606604909550033534751544165635592339447788int, 1, 37708960546153945843958973812618546261670618580507553614517327413904816963235int);
    lemma_powmod_step(2, 57896044618658097711785492504343953926634992332820282019728792003956564819949int, 6901746346790563787434755862277025452451108972170386555162524223799295nat, 37708960546153945843958973812618546261670618580507553614517327413904816963235int, 1, 2057919991675863527054010271309791625846740817386352880445591432005900891303int);
    lemma_powmod_step(2, 57896044618658097711785492504343953926634992332820282019728792003956564819949int, 13803492693581127574869511724554050904902217944340773110325048447598591nat, 2057919991675863527054010271309791625846740817386352880445591432005900891303int, 1, 20249007912788656877858290429492512521631358125394076339539349770885218897450int);
    lemma_powmod_step(2, 57896044618658097711785492504343953926634992332820282019728792003956564819949int, 27606985387162255149739023449108101809804435888681546220650096895197183nat, 20249007912788656877858290429492512521631358125394076339539349770885218897450int, 1, 42571996530428911894693132740212666761429091441709467178347503787900635626630int);
    lemma_powmod_step(2, 57896044618658097711785492504343953926634992332820282019728792003956564819949int, 55213970774324510299478046898216203619608871777363092441300193790394367nat, 42571996530428911894693132740212666761429091441709467178347503787900635626630int, 1, 5435299199213152975492301500219858938085329969184343786141514702871513181784int);
    lemma_powmod_step(2, 57896044618658097711785492504343953926634992332820282019728792003956564819949int, 110427941548649020598956093796432407239217743554726184882600387580788735nat, 5435299199213152975492301500219858938085329969184343786141514702871513181784int, 1, 33882242112267496923536051823032213047892495906645674409515910817898777107257int);
    lemma_powmod_step(2, 57896044618658097711785492504343953926634992332820282019728792003956564819949int, 220855883097298041197912187592864814478435487109452369765200775161577471nat, 33882242112267496923536051823032213047892495906645674409515910817898777107257int, 1, 51123978885619834460123720657013633389779939782597154962641759658222584675645int);
    lemma_powmod_step(2, 57896044618658097711785492504343953926634992332820282019728792003956564819949int, 441711766194596082395824375185729628956870974218904739530401550323154943nat, 51123978885619834460123720657013633389779939782597154962641759658222584675645int, 1, 43219276769744686065183324647184717045656222363829659343670365424300554530035int);
    lemma_powmod_step(2, 57896044618658097711785492504343953926634992332820282019728792003956564819949int, 883423532389192164791648750371459257913741948437809479060803100646309887nat, 43219276769744686065183324647184717045656222363829659343670365424300554530035int, 1, 54540094052611622470445204756022498502301992064615059872118586784666432192860int);
    lemma_powmod_step(2, 57896044618658097711785492504343953926634992332820282019728792003956564819949int, 1766847064778384329583297500742918515827483896875618958121606201292619775nat, 54540094052611622470445204756022498502301992064615059872118586784666432192860int, 1, 37551472053155023094598280749600284614585691400890565658685849766312449902312int);
    lemma_powmod_step(2, 57896044618658097711785492504343953926634992332820282019728792003956564819949int, 3533694129556768659166595001485837031654967793751237916243212402585239551nat, 37551472053155023094598280749600284614585691400890565658685849766312449902312int, 1, 3803914040724051894386236598260692734658987734458578662976073884998070765041int);
    lemma_powmod_step(2, 57896044618658097711785492504343953926634992332820282019728792003956564819949int, 7067388259113537318333190002971674063309935587502475832486424805170479103nat, 3803914040724051894386236598260692734658987734458578662976073884998070765041int, 1, 3829772649397305401114698789991079656979851534689771153023122197422770815110int);
    lemma_powmod_step(2, 57896044618658097711785492504343953926634992332820282019728792003956564819949int, 14134776518227074636666380005943348126619871175004951664972849610340958207nat, 3829772649397305401114698789991079656979851534689771153023122197422770815110int, 1, 17987939655220351027887281615378337919756346108173807249081199009637994796582int);
    lemma_powmod_step(2, 57896044618658097711785492504343953926634992332820282019728792003956564819949int, 28269553036454149273332760011886696253239742350009903329945699220681916415nat, 17987939655220351027887281615378337919756346108173807249081199009637994796582int, 1, 30348741544180654946814210571832604891148323009090688159164939748200445802373int);
    lemma_powmod_step(2, 57896044618658097711785492504343953926634992332820282019728792003956564819949int, 56539106072908298546665520023773392506479484700019806659891398441363832831nat, 30348741544180654946814210571832604891148323009090688159164939748200445802373int, 1, 15513182470649566372280220337745372463859220538938362347543710404034055407928int);
    lemma_powmod_step(2, 57896044618658097711785492504343953926634992332820282019728792003956564819949int, 113078212145816597093331040047546785012958969400039613319782796882727665663nat, 15513182470649566372280220337745372463859220538938362347543710404034055407928int, 1, 32785846204757843728184147904964674237443212419005095899022797234058411955803int);
    lemma_powmod_step(2, 57896044618658097711785492504343953926634992332820282019728792003956564819949int, 226156424291633194186662080095093570025917938800079226639565593765455331327nat, 32785846204757843728184147904964674237443212419005095899022797234058411955803int, 1, 25685400396258068827309542784701451615252568774064705527532856139406555789341int);
    lemma_powmod_step(2, 57896044618658097711785492504343953926634992332820282019728792003956564819949int, 452312848583266388373324160190187140051835877600158453279131187530910662655nat, 25685400396258068827309542784701451615252568774064705527532856139406555789341int, 1, 25910928650365661088611546722392363794011740157349981708915610625600295625773int);
    lemma_powmod_step(2, 57896044618658097711785492504343953926634992332820282019728792003956564819949int, 904625697166532776746648320380374280103671755200316906558262375061821325311nat, 25910928650365661088611546722392363794011740157349981708915610625600295625773int, 1, 57692109581687170544952182944730090749826224675958039702824471609347838771772int);
    lemma_powmod_step(2, 57896044618658097711785492504343953926634992332820282019728792003956564819949int, 1809251394333065553493296640760748560207343510400633813116524750123642650623nat, 57692109581687170544952182944730090749826224675958039702824471609347838771772int, 0, 22961221025933304929473883566500786080839636259902234537901881337279050793515int);
    lemma_powmod_step(2, 57896044618658097711785492504343953926634992332820282019728792003956564819949int, 3618502788666131106986593281521497120414687020801267626233049500247285301246nat, 22961221025933304929473883566500786080839636259902234537901881337279050793515int, 1, 38788602997682801834296285904666247971040529424372086091236406538540197302351int);
    lemma_powmod_step(2, 57896044618658097711785492504343953926634992332820282019728792003956564819949int, 7237005577332262213973186563042994240829374041602535252466099000494570602493nat, 38788602997682801834296285904666247971040529424372086091236406538540197302351int, 1, 19681161376707505956807079304988542015446066515923890162744021073123829784752int);
    lemma_powmod_step(2, 57896044618658097711785492504343953926634992332820282019728792003956564819949int, 14474011154664524427946373126085988481658748083205070504932198000989141204987nat, 19681161376707505956807079304988542015446066515923890162744021073123829784752int, 0, 57896044618658097711785492504343953926634992332820282019728792003956564819948int);
    lemma_powmod_step(2, 57896044618658097711785492504343953926634992332820282019728792003956564819949int, 28948022309329048855892746252171976963317496166410141009864396001978282409974nat, 57896044618658097711785492504343953926634992332820282019728792003956564819948int, 0, 1int);
}

proof fn lemma_pow_curve_21()
    ensures
        pow(2, 781764nat) % 57896044618658097711785492504343953926634992332820282019728792003956564819949int == 427094198651976259540344842774561673889945192655078505504941250475370961481int,
{
    lemma_pow1(2);
    lemma_small_mod(2, 57896044618658097711785492504343953926634992332820282019728792003956564819949nat);
    lemma_powmod_step(2, 57896044618658097711785492504343953926634992332820282019728792003956564819949int, 1nat, 2int, 0, 4int);
    lemma_powmod_step(2, 57896044618658097711785492504343953926634992332820282019728792003956564819949int, 2nat, 4int, 1, 32int);
    lemma_powmod_step(2, 57896044618658097711785492504343953926634992332820282019728792003956564819949int, 5nat, 32int, 1, 2048int);
    lemma_powmod_step(2, 57896044618658097711785492504343953926634992332820282019728792003956564819949int, 11nat, 2048int, 1, 8388608int);
    lemma_powmod_step(2, 57896044618658097711785492504343953926634992332820282019728792003956564819949int, 23nat, 8388608int, 1, 140737488355328int);
    lemma_powmod_step(2, 57896044618658097711785492504343953926634992332820282019728792003956564819949int, 47nat, 140737488355328int, 1, 39614081257132168796771975168int);
    lemma_powmod_step(2, 57896044618658097711785492504343953926634992332820282019728792003956564819949int, 95nat, 39614081257132168796771975168int, 0, 1569275433846670190958947355801916604025588861116008628224int);
    lemma_powmod_step(2, 57896044618658097711785492504343953926634992332820282019728792003956564819949int, 190nat, 1569275433846670190958947355801916604025588861116008628224int, 1, 1616341242874457701451029385300899004416int);
    lemma_powmod_step(2, 57896044618658097711785492504343953926634992332820282019728792003956564819949int, 381nat, 1616341242874457701451029385300899004416int, 1, 14474011154664524427946373126085988481658748083205070504932198000989141206702int);
    lemma_powmod_step(2, 57896044618658097711785492504343953926634992332820282019728792003956564819949int, 763nat, 14474011154664524427946373126085988481658748083205070504932198000989141206702int, 0, 10855508365998393320959779844564491361244061062403802878699148500741858844108int);
    lemma_powmod_step(2, 57896044618658097711785492504343953926634992332820282019728792003956564819949int, 1526nat, 10855508365998393320959779844564491361244061062403802878699148500741858844108int, 1, 19449452489080454700052938888178047022228942736806813491002641081120681299406int);
    lemma_powmod_step(2, 57896044618658097711785492504343953926634992332820282019728792003956564819949int, 3053nat, 19449452489080454700052938888178047022228942736806813491002641081120681299406int, 1, 5844730090286895362261548132457574450357316730865145506988119120372289477707int);
    lemma_powmod_step(2, 57896044618658097711785492504343953926634992332820282019728792003956564819949int, 6107nat, 5844730090286895362261548132457574450357316730865145506988119120372289477707int, 1, 10011112483763715096745842972409582215110234036302095062009100585929643265913int);
    lemma_powmod_step(2, 57896044618658097711785492504343953926634992332820282019728792003956564819949int, 12215nat, 10011112483763715096745842972409582215110234036302095062009100585929643265913int, 0, 50082932276091518066455387449031094497791709234718174193352973575247037041536int);
    lemma_powmod_step(2, 57896044618658097711785492504343953926634992332820282019728792003956564819949int, 24430nat, 50082932276091518066455387449031094497791709234718174193352973575247037041536int, 0, 13343768986571359007854455104042816243275199009921288930213888121862028233560int);
    lemma_powmod_step(2, 57896044618658097711785492504343953926634992332820282019728792003956564819949int, 48860nat, 13343768986571359007854455104042816243275199009921288930213888121862028233560int, 0, 29021988539057075980713355158958070277907045233294037432382353502841631121267int);
    lemma_powmod_step(2, 57896044618658097711785492504343953926634992332820282019728792003956564819949int, 97720nat, 29021988539057075980713355158958070277907045233294037432382353502841631121267int, 1, 6814271218530413793737419123678870252773648441814096715214653977322709480214int);
    lemma_powmod_step(2, 57896044618658097711785492504343953926634992332820282019728792003956564819949int, 195441nat, 6814271218530413793737419123678870252773648441814096715214653977322709480214int, 0, 40021463743779041745397667549197261276748984932910244056888199122096431277628int);
    lemma_powmod_step(2, 57896044618658097711785492504343953926634992332820282019728792003956564819949int, 390882nat, 40021463743779041745397667549197261276748984932910244056888199122096431277628int, 0, 427094198651976259540344842774561673889945192655078505504941250475370961481int);
}

/// 2^255 - 19 is prime: Pocklington's criterion with a = 2 and the prime factor 74058212732561358302231226437062788676166966415465897661863160754340907 of n - 1.
pub proof fn lemma_prime_curve()
    ensures
        is_prime(p()),
{
    lemma_prime_p74058212732561358302231226437062788676166966415465897661863160754340907();
    lemma_pow_curve_20();
    lemma_pow_curve_21();
    assert forall|f: nat| is_prime(f) && 57896044618658097711785492504343953926634992332820282019728792003956564819949nat % f == 0 implies #[trigger] ((f - 1) as nat % 74058212732561358302231226437062788676166966415465897661863160754340907nat) == 0 by {
        lemma_pocklington_factor(57896044618658097711785492504343953926634992332820282019728792003956564819949nat, 2, 74058212732561358302231226437062788676166966415465897661863160754340907nat, 781764nat, 427094198651976259540344842774561673889945192655078505504941250475370961481nat, (0int - 2355212522539319667277716899338243677401872381675335205048650927450921550865int), 17374202531356705828138125260963565265097131870064656002554684858717382349int, f);
    }
    lemma_prime_by_factor(57896044618658097711785492504343953926634992332820282019728792003956564819949nat, 74058212732561358302231226437062788676166966415465897661863160754340907nat);
}

} // verus!
