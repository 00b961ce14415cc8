//! The numeric value of the field's root of unity of order `2^32`, found by
//! square and multiply from the generator, and of what repeated squaring
//! makes of it: minus one after 31 squarings, one after 32.

use vstd::prelude::*;
use crate::poly::squared_times;
use crate::powers::lemma_fpow_double;
use crate::scalar::{fmul, fpow, modulus, two_adic_root};

verus! {

proof fn lemma_generator_power_1()
    ensures
        fpow(7, 7419nat) == 13431437839960019589404610549249061508729351596255741380795413501395783689639nat,
{
    assert(fpow(7, 0) == 1);
    assert(fmul(7, 1) == 7) by (nonlinear_arith)
        requires
            modulus() == 52435875175126190479447740508185965837690552500527637822603658699938581184513nat,
    ;
    assert(fpow(7, 1) == 7);
    lemma_fpow_double(7, 1nat);
    assert(fmul(7nat, 7nat) == 49nat) by (nonlinear_arith)
        requires
            modulus() == 52435875175126190479447740508185965837690552500527637822603658699938581184513nat,
    ;
    assert(fpow(7, 2nat) == 49nat);
    assert(fmul(7, 49nat) == 343nat) by (nonlinear_arith)
        requires
            modulus() == 52435875175126190479447740508185965837690552500527637822603658699938581184513nat,
    ;
    assert(fpow(7, 3nat) == 343nat);
    lemma_fpow_double(7, 3nat);
    assert(fmul(343nat, 343nat) == 117649nat) by (nonlinear_arith)
        requires
            modulus() == 52435875175126190479447740508185965837690552500527637822603658699938581184513nat,
    ;
    assert(fpow(7, 6nat) == 117649nat);
    assert(fmul(7, 117649nat) == 823543nat) by (nonlinear_arith)
        requires
            modulus() == 52435875175126190479447740508185965837690552500527637822603658699938581184513nat,
    ;
    assert(fpow(7, 7nat) == 823543nat);
    lemma_fpow_double(7, 7nat);
    assert(fmul(823543nat, 823543nat) == 678223072849nat) by (nonlinear_arith)
        requires
            modulus() == 52435875175126190479447740508185965837690552500527637822603658699938581184513nat,
    ;
    assert(fpow(7, 14nat) == 678223072849nat);
    lemma_fpow_double(7, 14nat);
    assert(fmul(678223072849nat, 678223072849nat) == 459986536544739960976801nat) by (nonlinear_arith)
        requires
            modulus() == 52435875175126190479447740508185965837690552500527637822603658699938581184513nat,
    ;
    assert(fpow(7, 28nat) == 459986536544739960976801nat);
    lemma_fpow_double(7, 28nat);
    assert(fmul(459986536544739960976801nat, 459986536544739960976801nat) == 211587613802425391637729361787678676290060193601nat) by (nonlinear_arith)
        requires
            modulus() == 52435875175126190479447740508185965837690552500527637822603658699938581184513nat,
    ;
    assert(fpow(7, 56nat) == 211587613802425391637729361787678676290060193601nat);
    assert(fmul(7, 211587613802425391637729361787678676290060193601nat) == 1481113296616977741464105532513750734030421355207nat) by (nonlinear_arith)
        requires
            modulus() == 52435875175126190479447740508185965837690552500527637822603658699938581184513nat,
    ;
    assert(fpow(7, 57nat) == 1481113296616977741464105532513750734030421355207nat);
    lemma_fpow_double(7, 57nat);
    assert(fmul(1481113296616977741464105532513750734030421355207nat, 1481113296616977741464105532513750734030421355207nat) == 44713190787204262720740799792212998084068831978051453682388207323031584026412nat) by (nonlinear_arith)
        requires
            modulus() == 52435875175126190479447740508185965837690552500527637822603658699938581184513nat,
    ;
    assert(fpow(7, 114nat) == 44713190787204262720740799792212998084068831978051453682388207323031584026412nat);
    assert(fmul(7, 44713190787204262720740799792212998084068831978051453682388207323031584026412nat) == 50812959634798886647946896004561157400029061343721986663699157761528182262319nat) by (nonlinear_arith)
        requires
            modulus() == 52435875175126190479447740508185965837690552500527637822603658699938581184513nat,
    ;
    assert(fpow(7, 115nat) == 50812959634798886647946896004561157400029061343721986663699157761528182262319nat);
    lemma_fpow_double(7, 115nat);
    assert(fmul(50812959634798886647946896004561157400029061343721986663699157761528182262319nat, 50812959634798886647946896004561157400029061343721986663699157761528182262319nat) == 36113784790954343303154012399942344496633298260674240394473227770720473104866nat) by (nonlinear_arith)
        requires
            modulus() == 52435875175126190479447740508185965837690552500527637822603658699938581184513nat,
    ;
    assert(fpow(7, 230nat) == 36113784790954343303154012399942344496633298260674240394473227770720473104866nat);
    assert(fmul(7, 36113784790954343303154012399942344496633298260674240394473227770720473104866nat) == 43052992836175641204287124766852548125670877822609131470897959595288986996010nat) by (nonlinear_arith)
        requires
            modulus() == 52435875175126190479447740508185965837690552500527637822603658699938581184513nat,
    ;
    assert(fpow(7, 231nat) == 43052992836175641204287124766852548125670877822609131470897959595288986996010nat);
    lemma_fpow_double(7, 231nat);
    assert(fmul(43052992836175641204287124766852548125670877822609131470897959595288986996010nat, 43052992836175641204287124766852548125670877822609131470897959595288986996010nat) == 51582253561379468081810542819550822753585510290803939479159552681176774754079nat) by (nonlinear_arith)
        requires
            modulus() == 52435875175126190479447740508185965837690552500527637822603658699938581184513nat,
    ;
    assert(fpow(7, 462nat) == 51582253561379468081810542819550822753585510290803939479159552681176774754079nat);
    assert(fmul(7, 51582253561379468081810542819550822753585510290803939479159552681176774754079nat) == 46460523878899133695987356687739964248955257032461749418494916568605936171475nat) by (nonlinear_arith)
        requires
            modulus() == 52435875175126190479447740508185965837690552500527637822603658699938581184513nat,
    ;
    assert(fpow(7, 463nat) == 46460523878899133695987356687739964248955257032461749418494916568605936171475nat);
    lemma_fpow_double(7, 463nat);
    assert(fmul(46460523878899133695987356687739964248955257032461749418494916568605936171475nat, 46460523878899133695987356687739964248955257032461749418494916568605936171475nat) == 25339820400101167054695932569943362529319649104193292942383373074582102222972nat) by (nonlinear_arith)
        requires
            modulus() == 52435875175126190479447740508185965837690552500527637822603658699938581184513nat,
    ;
    assert(fpow(7, 926nat) == 25339820400101167054695932569943362529319649104193292942383373074582102222972nat);
    assert(fmul(7, 25339820400101167054695932569943362529319649104193292942383373074582102222972nat) == 20071117275329597944528306465045640192165886227770137128872635422258972007265nat) by (nonlinear_arith)
        requires
            modulus() == 52435875175126190479447740508185965837690552500527637822603658699938581184513nat,
    ;
    assert(fpow(7, 927nat) == 20071117275329597944528306465045640192165886227770137128872635422258972007265nat);
    lemma_fpow_double(7, 927nat);
    assert(fmul(20071117275329597944528306465045640192165886227770137128872635422258972007265nat, 20071117275329597944528306465045640192165886227770137128872635422258972007265nat) == 46310834301184855689776880926486663263207947624631662199286124021737585626228nat) by (nonlinear_arith)
        requires
            modulus() == 52435875175126190479447740508185965837690552500527637822603658699938581184513nat,
    ;
    assert(fpow(7, 1854nat) == 46310834301184855689776880926486663263207947624631662199286124021737585626228nat);
    lemma_fpow_double(7, 1854nat);
    assert(fmul(46310834301184855689776880926486663263207947624631662199286124021737585626228nat, 46310834301184855689776880926486663263207947624631662199286124021737585626228nat) == 46401789713416593632851401385468824381389656236746698877487792706717381792277nat) by (nonlinear_arith)
        requires
            modulus() == 52435875175126190479447740508185965837690552500527637822603658699938581184513nat,
    ;
    assert(fpow(7, 3708nat) == 46401789713416593632851401385468824381389656236746698877487792706717381792277nat);
    assert(fmul(7, 46401789713416593632851401385468824381389656236746698877487792706717381792277nat) == 10197276943159012553273366649165975643584278654061065206792596747390185438861nat) by (nonlinear_arith)
        requires
            modulus() == 52435875175126190479447740508185965837690552500527637822603658699938581184513nat,
    ;
    assert(fpow(7, 3709nat) == 10197276943159012553273366649165975643584278654061065206792596747390185438861nat);
    lemma_fpow_double(7, 3709nat);
    assert(fmul(10197276943159012553273366649165975643584278654061065206792596747390185438861nat, 10197276943159012553273366649165975643584278654061065206792596747390185438861nat) == 39372973387941567426663330441454127242454587728413418641973386714441241373172nat) by (nonlinear_arith)
        requires
            modulus() == 52435875175126190479447740508185965837690552500527637822603658699938581184513nat,
    ;
    assert(fpow(7, 7418nat) == 39372973387941567426663330441454127242454587728413418641973386714441241373172nat);
    assert(fmul(7, 39372973387941567426663330441454127242454587728413418641973386714441241373172nat) == 13431437839960019589404610549249061508729351596255741380795413501395783689639nat) by (nonlinear_arith)
        requires
            modulus() == 52435875175126190479447740508185965837690552500527637822603658699938581184513nat,
    ;
    assert(fpow(7, 7419nat) == 13431437839960019589404610549249061508729351596255741380795413501395783689639nat);
}

proof fn lemma_generator_power_2()
    ensures
        fpow(7, 30389917nat) == 47791987846355897988884122250528721661649083318960009073962462666272474309215nat,
{
    lemma_generator_power_1();
    lemma_fpow_double(7, 7419nat);
    assert(fmul(13431437839960019589404610549249061508729351596255741380795413501395783689639nat, 13431437839960019589404610549249061508729351596255741380795413501395783689639nat) == 37891154123899018532623533129818841122258047686394048270712783308439375410392nat) by (nonlinear_arith)
        requires
            modulus() == 52435875175126190479447740508185965837690552500527637822603658699938581184513nat,
    ;
    assert(fpow(7, 14838nat) == 37891154123899018532623533129818841122258047686394048270712783308439375410392nat);
    lemma_fpow_double(7, 14838nat);
    assert(fmul(37891154123899018532623533129818841122258047686394048270712783308439375410392nat, 37891154123899018532623533129818841122258047686394048270712783308439375410392nat) == 24522208671192006471625186509108288179016017618985007283418064773746227203083nat) by (nonlinear_arith)
        requires
            modulus() == 52435875175126190479447740508185965837690552500527637822603658699938581184513nat,
    ;
    assert(fpow(7, 29676nat) == 24522208671192006471625186509108288179016017618985007283418064773746227203083nat);
    assert(fmul(7, 24522208671192006471625186509108288179016017618985007283418064773746227203083nat) == 14347835172965473863033084039200119740040465831312137516115477316407846868042nat) by (nonlinear_arith)
        requires
            modulus() == 52435875175126190479447740508185965837690552500527637822603658699938581184513nat,
    ;
    assert(fpow(7, 29677nat) == 14347835172965473863033084039200119740040465831312137516115477316407846868042nat);
    lemma_fpow_double(7, 29677nat);
    assert(fmul(14347835172965473863033084039200119740040465831312137516115477316407846868042nat, 14347835172965473863033084039200119740040465831312137516115477316407846868042nat) == 40680212451408245944033154192387327292049899635685646262345340540839577760327nat) by (nonlinear_arith)
        requires
            modulus() == 52435875175126190479447740508185965837690552500527637822603658699938581184513nat,
    ;
    assert(fpow(7, 59354nat) == 40680212451408245944033154192387327292049899635685646262345340540839577760327nat);
    assert(fmul(7, 40680212451408245944033154192387327292049899635685646262345340540839577760327nat) == 22582111284226769210993376805781461855896534947161334723399090286184138399724nat) by (nonlinear_arith)
        requires
            modulus() == 52435875175126190479447740508185965837690552500527637822603658699938581184513nat,
    ;
    assert(fpow(7, 59355nat) == 22582111284226769210993376805781461855896534947161334723399090286184138399724nat);
    lemma_fpow_double(7, 59355nat);
    assert(fmul(22582111284226769210993376805781461855896534947161334723399090286184138399724nat, 22582111284226769210993376805781461855896534947161334723399090286184138399724nat) == 22816540351633602738192130541066621712366663107624345430205656830477168492618nat) by (nonlinear_arith)
        requires
            modulus() == 52435875175126190479447740508185965837690552500527637822603658699938581184513nat,
    ;
    assert(fpow(7, 118710nat) == 22816540351633602738192130541066621712366663107624345430205656830477168492618nat);
    lemma_fpow_double(7, 118710nat);
    assert(fmul(22816540351633602738192130541066621712366663107624345430205656830477168492618nat, 22816540351633602738192130541066621712366663107624345430205656830477168492618nat) == 48517998814984932252052631119779112868269049494832743230232350566230856660499nat) by (nonlinear_arith)
        requires
            modulus() == 52435875175126190479447740508185965837690552500527637822603658699938581184513nat,
    ;
    assert(fpow(7, 237420nat) == 48517998814984932252052631119779112868269049494832743230232350566230856660499nat);
    assert(fmul(7, 48517998814984932252052631119779112868269049494832743230232350566230856660499nat) == 25010740654137382887681974789337995051740031460663375676004501763984509516415nat) by (nonlinear_arith)
        requires
            modulus() == 52435875175126190479447740508185965837690552500527637822603658699938581184513nat,
    ;
    assert(fpow(7, 237421nat) == 25010740654137382887681974789337995051740031460663375676004501763984509516415nat);
    lemma_fpow_double(7, 237421nat);
    assert(fmul(25010740654137382887681974789337995051740031460663375676004501763984509516415nat, 25010740654137382887681974789337995051740031460663375676004501763984509516415nat) == 31535378746210068166376978443802018445901671804246729203715267642439510779338nat) by (nonlinear_arith)
        requires
            modulus() == 52435875175126190479447740508185965837690552500527637822603658699938581184513nat,
    ;
    assert(fpow(7, 474842nat) == 31535378746210068166376978443802018445901671804246729203715267642439510779338nat);
    lemma_fpow_double(7, 474842nat);
    assert(fmul(31535378746210068166376978443802018445901671804246729203715267642439510779338nat, 31535378746210068166376978443802018445901671804246729203715267642439510779338nat) == 12333807453290692423819548880496570513589846300918924925346028745529403197987nat) by (nonlinear_arith)
        requires
            modulus() == 52435875175126190479447740508185965837690552500527637822603658699938581184513nat,
    ;
    assert(fpow(7, 949684nat) == 12333807453290692423819548880496570513589846300918924925346028745529403197987nat);
    lemma_fpow_double(7, 949684nat);
    assert(fmul(12333807453290692423819548880496570513589846300918924925346028745529403197987nat, 12333807453290692423819548880496570513589846300918924925346028745529403197987nat) == 28884137492089036126689147405333072181477983309146455155877190388387769221358nat) by (nonlinear_arith)
        requires
            modulus() == 52435875175126190479447740508185965837690552500527637822603658699938581184513nat,
    ;
    assert(fpow(7, 1899368nat) == 28884137492089036126689147405333072181477983309146455155877190388387769221358nat);
    assert(fmul(7, 28884137492089036126689147405333072181477983309146455155877190388387769221358nat) == 44881336919244681448480810312773607757274225662442272623329356618898640995967nat) by (nonlinear_arith)
        requires
            modulus() == 52435875175126190479447740508185965837690552500527637822603658699938581184513nat,
    ;
    assert(fpow(7, 1899369nat) == 44881336919244681448480810312773607757274225662442272623329356618898640995967nat);
    lemma_fpow_double(7, 1899369nat);
    assert(fmul(44881336919244681448480810312773607757274225662442272623329356618898640995967nat, 44881336919244681448480810312773607757274225662442272623329356618898640995967nat) == 5814152804019988481502099140152987571512510120518563754195579119632869162091nat) by (nonlinear_arith)
        requires
            modulus() == 52435875175126190479447740508185965837690552500527637822603658699938581184513nat,
    ;
    assert(fpow(7, 3798738nat) == 5814152804019988481502099140152987571512510120518563754195579119632869162091nat);
    assert(fmul(7, 5814152804019988481502099140152987571512510120518563754195579119632869162091nat) == 40699069628139919370514693981070913000587570843629946279369053837430084134637nat) by (nonlinear_arith)
        requires
            modulus() == 52435875175126190479447740508185965837690552500527637822603658699938581184513nat,
    ;
    assert(fpow(7, 3798739nat) == 40699069628139919370514693981070913000587570843629946279369053837430084134637nat);
    lemma_fpow_double(7, 3798739nat);
    assert(fmul(40699069628139919370514693981070913000587570843629946279369053837430084134637nat, 40699069628139919370514693981070913000587570843629946279369053837430084134637nat) == 44875964589920517951853016363825895062340634472827811795798107909180464790976nat) by (nonlinear_arith)
        requires
            modulus() == 52435875175126190479447740508185965837690552500527637822603658699938581184513nat,
    ;
    assert(fpow(7, 7597478nat) == 44875964589920517951853016363825895062340634472827811795798107909180464790976nat);
    assert(fmul(7, 44875964589920517951853016363825895062340634472827811795798107909180464790976nat) == 51952376253812673265732412005851436247931678807156493457568461864570347614267nat) by (nonlinear_arith)
        requires
            modulus() == 52435875175126190479447740508185965837690552500527637822603658699938581184513nat,
    ;
    assert(fpow(7, 7597479nat) == 51952376253812673265732412005851436247931678807156493457568461864570347614267nat);
    lemma_fpow_double(7, 7597479nat);
    assert(fmul(51952376253812673265732412005851436247931678807156493457568461864570347614267nat, 51952376253812673265732412005851436247931678807156493457568461864570347614267nat) == 27709021390842213128629326074905577550131738051915234559593492240391079732111nat) by (nonlinear_arith)
        requires
            modulus() == 52435875175126190479447740508185965837690552500527637822603658699938581184513nat,
    ;
    assert(fpow(7, 15194958nat) == 27709021390842213128629326074905577550131738051915234559593492240391079732111nat);
    lemma_fpow_double(7, 15194958nat);
    assert(fmul(27709021390842213128629326074905577550131738051915234559593492240391079732111nat, 27709021390842213128629326074905577550131738051915234559593492240391079732111nat) == 21809105456658325563968514752414379048147169760002183531309968580878519525463nat) by (nonlinear_arith)
        requires
            modulus() == 52435875175126190479447740508185965837690552500527637822603658699938581184513nat,
    ;
    assert(fpow(7, 30389916nat) == 21809105456658325563968514752414379048147169760002183531309968580878519525463nat);
    assert(fmul(7, 21809105456658325563968514752414379048147169760002183531309968580878519525463nat) == 47791987846355897988884122250528721661649083318960009073962462666272474309215nat) by (nonlinear_arith)
        requires
            modulus() == 52435875175126190479447740508185965837690552500527637822603658699938581184513nat,
    ;
    assert(fpow(7, 30389917nat) == 47791987846355897988884122250528721661649083318960009073962462666272474309215nat);
}

proof fn lemma_generator_power_3()
    ensures
        fpow(7, 124477101258nat) == 50297304383077481868165198493211079897914074961879868443490505621345974652915nat,
{
    lemma_generator_power_2();
    lemma_fpow_double(7, 30389917nat);
    assert(fmul(47791987846355897988884122250528721661649083318960009073962462666272474309215nat, 47791987846355897988884122250528721661649083318960009073962462666272474309215nat) == 26931571879365494740192310469584173294560702997338007338003900692018908369379nat) by (nonlinear_arith)
        requires
            modulus() == 52435875175126190479447740508185965837690552500527637822603658699938581184513nat,
    ;
    assert(fpow(7, 60779834nat) == 26931571879365494740192310469584173294560702997338007338003900692018908369379nat);
    lemma_fpow_double(7, 60779834nat);
    assert(fmul(26931571879365494740192310469584173294560702997338007338003900692018908369379nat, 26931571879365494740192310469584173294560702997338007338003900692018908369379nat) == 25627865270210843094351880550324782783951761483906233594305954079903520066173nat) by (nonlinear_arith)
        requires
            modulus() == 52435875175126190479447740508185965837690552500527637822603658699938581184513nat,
    ;
    assert(fpow(7, 121559668nat) == 25627865270210843094351880550324782783951761483906233594305954079903520066173nat);
    assert(fmul(7, 25627865270210843094351880550324782783951761483906233594305954079903520066173nat) == 22087431366097330222119942327715581974590672885760721692330702459508896909672nat) by (nonlinear_arith)
        requires
            modulus() == 52435875175126190479447740508185965837690552500527637822603658699938581184513nat,
    ;
    assert(fpow(7, 121559669nat) == 22087431366097330222119942327715581974590672885760721692330702459508896909672nat);
    lemma_fpow_double(7, 121559669nat);
    assert(fmul(22087431366097330222119942327715581974590672885760721692330702459508896909672nat, 22087431366097330222119942327715581974590672885760721692330702459508896909672nat) == 32900095547027742790147756438831676050035588852495931795248174319483974918012nat) by (nonlinear_arith)
        requires
            modulus() == 52435875175126190479447740508185965837690552500527637822603658699938581184513nat,
    ;
    assert(fpow(7, 243119338nat) == 32900095547027742790147756438831676050035588852495931795248174319483974918012nat);
    lemma_fpow_double(7, 243119338nat);
    assert(fmul(32900095547027742790147756438831676050035588852495931795248174319483974918012nat, 32900095547027742790147756438831676050035588852495931795248174319483974918012nat) == 6338257377187619480922960761350821061868224835500540596173938196809178259424nat) by (nonlinear_arith)
        requires
            modulus() == 52435875175126190479447740508185965837690552500527637822603658699938581184513nat,
    ;
    assert(fpow(7, 486238676nat) == 6338257377187619480922960761350821061868224835500540596173938196809178259424nat);
    lemma_fpow_double(7, 486238676nat);
    assert(fmul(6338257377187619480922960761350821061868224835500540596173938196809178259424nat, 6338257377187619480922960761350821061868224835500540596173938196809178259424nat) == 31835249365351503674905604172207458966289622089829464127871315301251119876059nat) by (nonlinear_arith)
        requires
            modulus() == 52435875175126190479447740508185965837690552500527637822603658699938581184513nat,
    ;
    assert(fpow(7, 972477352nat) == 31835249365351503674905604172207458966289622089829464127871315301251119876059nat);
    assert(fmul(7, 31835249365351503674905604172207458966289622089829464127871315301251119876059nat) == 13103244856955763806548267172708349413265144626695697604684572309003514394361nat) by (nonlinear_arith)
        requires
            modulus() == 52435875175126190479447740508185965837690552500527637822603658699938581184513nat,
    ;
    assert(fpow(7, 972477353nat) == 13103244856955763806548267172708349413265144626695697604684572309003514394361nat);
    lemma_fpow_double(7, 972477353nat);
    assert(fmul(13103244856955763806548267172708349413265144626695697604684572309003514394361nat, 13103244856955763806548267172708349413265144626695697604684572309003514394361nat) == 22833490621197706462216809926807625351744483703774113205044284032430135378416nat) by (nonlinear_arith)
        requires
            modulus() == 52435875175126190479447740508185965837690552500527637822603658699938581184513nat,
    ;
    assert(fpow(7, 1944954706nat) == 22833490621197706462216809926807625351744483703774113205044284032430135378416nat);
    assert(fmul(7, 22833490621197706462216809926807625351744483703774113205044284032430135378416nat) == 2526808823005373797174447963095479949139728424835878967499012127195204095373nat) by (nonlinear_arith)
        requires
            modulus() == 52435875175126190479447740508185965837690552500527637822603658699938581184513nat,
    ;
    assert(fpow(7, 1944954707nat) == 2526808823005373797174447963095479949139728424835878967499012127195204095373nat);
    lemma_fpow_double(7, 1944954707nat);
    assert(fmul(2526808823005373797174447963095479949139728424835878967499012127195204095373nat, 2526808823005373797174447963095479949139728424835878967499012127195204095373nat) == 33589990193086100029993441932406533457785957405795203383976668752525674407757nat) by (nonlinear_arith)
        requires
            modulus() == 52435875175126190479447740508185965837690552500527637822603658699938581184513nat,
    ;
    assert(fpow(7, 3889909414nat) == 33589990193086100029993441932406533457785957405795203383976668752525674407757nat);
    lemma_fpow_double(7, 3889909414nat);
    assert(fmul(33589990193086100029993441932406533457785957405795203383976668752525674407757nat, 33589990193086100029993441932406533457785957405795203383976668752525674407757nat) == 10150605306331240441937819007687316038997203598771093090557901838603731746605nat) by (nonlinear_arith)
        requires
            modulus() == 52435875175126190479447740508185965837690552500527637822603658699938581184513nat,
    ;
    assert(fpow(7, 7779818828nat) == 10150605306331240441937819007687316038997203598771093090557901838603731746605nat);
    lemma_fpow_double(7, 7779818828nat);
    assert(fmul(10150605306331240441937819007687316038997203598771093090557901838603731746605nat, 10150605306331240441937819007687316038997203598771093090557901838603731746605nat) == 11581989021704929634817565242473410715723619900278197743619289676863515992625nat) by (nonlinear_arith)
        requires
            modulus() == 52435875175126190479447740508185965837690552500527637822603658699938581184513nat,
    ;
    assert(fpow(7, 15559637656nat) == 11581989021704929634817565242473410715723619900278197743619289676863515992625nat);
    assert(fmul(7, 11581989021704929634817565242473410715723619900278197743619289676863515992625nat) == 28638047976808316964275216189127909172374786801419746382731369038106030763862nat) by (nonlinear_arith)
        requires
            modulus() == 52435875175126190479447740508185965837690552500527637822603658699938581184513nat,
    ;
    assert(fpow(7, 15559637657nat) == 28638047976808316964275216189127909172374786801419746382731369038106030763862nat);
    lemma_fpow_double(7, 15559637657nat);
    assert(fmul(28638047976808316964275216189127909172374786801419746382731369038106030763862nat, 28638047976808316964275216189127909172374786801419746382731369038106030763862nat) == 37100679812520719956698407783306023094283257414602917128225778234092011481356nat) by (nonlinear_arith)
        requires
            modulus() == 52435875175126190479447740508185965837690552500527637822603658699938581184513nat,
    ;
    assert(fpow(7, 31119275314nat) == 37100679812520719956698407783306023094283257414602917128225778234092011481356nat);
    lemma_fpow_double(7, 31119275314nat);
    assert(fmul(37100679812520719956698407783306023094283257414602917128225778234092011481356nat, 37100679812520719956698407783306023094283257414602917128225778234092011481356nat) == 40295110376537264984204991367118223700583732482987556236369996296238700964182nat) by (nonlinear_arith)
        requires
            modulus() == 52435875175126190479447740508185965837690552500527637822603658699938581184513nat,
    ;
    assert(fpow(7, 62238550628nat) == 40295110376537264984204991367118223700583732482987556236369996296238700964182nat);
    assert(fmul(7, 40295110376537264984204991367118223700583732482987556236369996296238700964182nat) == 19886396760129902492196237028897736715633364878274704541571680573978000826709nat) by (nonlinear_arith)
        requires
            modulus() == 52435875175126190479447740508185965837690552500527637822603658699938581184513nat,
    ;
    assert(fpow(7, 62238550629nat) == 19886396760129902492196237028897736715633364878274704541571680573978000826709nat);
    lemma_fpow_double(7, 62238550629nat);
    assert(fmul(19886396760129902492196237028897736715633364878274704541571680573978000826709nat, 19886396760129902492196237028897736715633364878274704541571680573978000826709nat) == 50297304383077481868165198493211079897914074961879868443490505621345974652915nat) by (nonlinear_arith)
        requires
            modulus() == 52435875175126190479447740508185965837690552500527637822603658699938581184513nat,
    ;
    assert(fpow(7, 124477101258nat) == 50297304383077481868165198493211079897914074961879868443490505621345974652915nat);
}

proof fn lemma_generator_power_4()
    ensures
        fpow(7, 509858206754421nat) == 8796384226471656762541333576857795885562154788817511438249804720186062002441nat,
{
    lemma_generator_power_3();
    lemma_fpow_double(7, 124477101258nat);
    assert(fmul(50297304383077481868165198493211079897914074961879868443490505621345974652915nat, 50297304383077481868165198493211079897914074961879868443490505621345974652915nat) == 24847965371090380337960874254127657045387767484021582603484925518107218967402nat) by (nonlinear_arith)
        requires
            modulus() == 52435875175126190479447740508185965837690552500527637822603658699938581184513nat,
    ;
    assert(fpow(7, 248954202516nat) == 24847965371090380337960874254127657045387767484021582603484925518107218967402nat);
    lemma_fpow_double(7, 248954202516nat);
    assert(fmul(24847965371090380337960874254127657045387767484021582603484925518107218967402nat, 24847965371090380337960874254127657045387767484021582603484925518107218967402nat) == 33551561035780591262777674121839654341398740623649276211197554933028535833846nat) by (nonlinear_arith)
        requires
            modulus() == 52435875175126190479447740508185965837690552500527637822603658699938581184513nat,
    ;
    assert(fpow(7, 497908405032nat) == 33551561035780591262777674121839654341398740623649276211197554933028535833846nat);
    assert(fmul(7, 33551561035780591262777674121839654341398740623649276211197554933028535833846nat) == 25117426549959376921652756820133717039028974363434382187968249731445426098870nat) by (nonlinear_arith)
        requires
            modulus() == 52435875175126190479447740508185965837690552500527637822603658699938581184513nat,
    ;
    assert(fpow(7, 497908405033nat) == 25117426549959376921652756820133717039028974363434382187968249731445426098870nat);
    lemma_fpow_double(7, 497908405033nat);
    assert(fmul(25117426549959376921652756820133717039028974363434382187968249731445426098870nat, 25117426549959376921652756820133717039028974363434382187968249731445426098870nat) == 31437344091899782037198669572330529331007185280605800617130008853810341311820nat) by (nonlinear_arith)
        requires
            modulus() == 52435875175126190479447740508185965837690552500527637822603658699938581184513nat,
    ;
    assert(fpow(7, 995816810066nat) == 31437344091899782037198669572330529331007185280605800617130008853810341311820nat);
    assert(fmul(7, 31437344091899782037198669572330529331007185280605800617130008853810341311820nat) == 10317907942793712342599724973569841966288086962130053029495427176918064444688nat) by (nonlinear_arith)
        requires
            modulus() == 52435875175126190479447740508185965837690552500527637822603658699938581184513nat,
    ;
    assert(fpow(7, 995816810067nat) == 10317907942793712342599724973569841966288086962130053029495427176918064444688nat);
    lemma_fpow_double(7, 995816810067nat);
    assert(fmul(10317907942793712342599724973569841966288086962130053029495427176918064444688nat, 10317907942793712342599724973569841966288086962130053029495427176918064444688nat) == 29925677593997698923132654374637653498477698703767858753811036595634963234104nat) by (nonlinear_arith)
        requires
            modulus() == 52435875175126190479447740508185965837690552500527637822603658699938581184513nat,
    ;
    assert(fpow(7, 1991633620134nat) == 29925677593997698923132654374637653498477698703767858753811036595634963234104nat);
    lemma_fpow_double(7, 1991633620134nat);
    assert(fmul(29925677593997698923132654374637653498477698703767858753811036595634963234104nat, 29925677593997698923132654374637653498477698703767858753811036595634963234104nat) == 30984642125362226158170552826376047725164738928651673846415123121306690841492nat) by (nonlinear_arith)
        requires
            modulus() == 52435875175126190479447740508185965837690552500527637822603658699938581184513nat,
    ;
    assert(fpow(7, 3983267240268nat) == 30984642125362226158170552826376047725164738928651673846415123121306690841492nat);
    lemma_fpow_double(7, 3983267240268nat);
    assert(fmul(30984642125362226158170552826376047725164738928651673846415123121306690841492nat, 30984642125362226158170552826376047725164738928651673846415123121306690841492nat) == 23726291002985173991345921249558392634479421631053028167130167873780982661033nat) by (nonlinear_arith)
        requires
            modulus() == 52435875175126190479447740508185965837690552500527637822603658699938581184513nat,
    ;
    assert(fpow(7, 7966534480536nat) == 23726291002985173991345921249558392634479421631053028167130167873780982661033nat);
    assert(fmul(7, 23726291002985173991345921249558392634479421631053028167130167873780982661033nat) == 8776411495517646501078227222350850928284293915788283702100199016651135073692nat) by (nonlinear_arith)
        requires
            modulus() == 52435875175126190479447740508185965837690552500527637822603658699938581184513nat,
    ;
    assert(fpow(7, 7966534480537nat) == 8776411495517646501078227222350850928284293915788283702100199016651135073692nat);
    lemma_fpow_double(7, 7966534480537nat);
    assert(fmul(8776411495517646501078227222350850928284293915788283702100199016651135073692nat, 8776411495517646501078227222350850928284293915788283702100199016651135073692nat) == 17315178463217758253225931001765323585710146804267283204479271177554559989714nat) by (nonlinear_arith)
        requires
            modulus() == 52435875175126190479447740508185965837690552500527637822603658699938581184513nat,
    ;
    assert(fpow(7, 15933068961074nat) == 17315178463217758253225931001765323585710146804267283204479271177554559989714nat);
    assert(fmul(7, 17315178463217758253225931001765323585710146804267283204479271177554559989714nat) == 16334498892271926813686035995985333424589922628815706786147580843004757558972nat) by (nonlinear_arith)
        requires
            modulus() == 52435875175126190479447740508185965837690552500527637822603658699938581184513nat,
    ;
    assert(fpow(7, 15933068961075nat) == 16334498892271926813686035995985333424589922628815706786147580843004757558972nat);
    lemma_fpow_double(7, 15933068961075nat);
    assert(fmul(16334498892271926813686035995985333424589922628815706786147580843004757558972nat, 16334498892271926813686035995985333424589922628815706786147580843004757558972nat) == 2380309588817167485396489245359319238329701398889780710463303654564509178420nat) by (nonlinear_arith)
        requires
            modulus() == 52435875175126190479447740508185965837690552500527637822603658699938581184513nat,
    ;
    assert(fpow(7, 31866137922150nat) == 2380309588817167485396489245359319238329701398889780710463303654564509178420nat);
    assert(fmul(7, 2380309588817167485396489245359319238329701398889780710463303654564509178420nat) == 16662167121720172397775424717515234668307909792228464973243125581951564248940nat) by (nonlinear_arith)
        requires
            modulus() == 52435875175126190479447740508185965837690552500527637822603658699938581184513nat,
    ;
    assert(fpow(7, 31866137922151nat) == 16662167121720172397775424717515234668307909792228464973243125581951564248940nat);
    lemma_fpow_double(7, 31866137922151nat);
    assert(fmul(16662167121720172397775424717515234668307909792228464973243125581951564248940nat, 16662167121720172397775424717515234668307909792228464973243125581951564248940nat) == 12789856499364335502767009450859331604700211572807240670940040426699461586095nat) by (nonlinear_arith)
        requires
            modulus() == 52435875175126190479447740508185965837690552500527637822603658699938581184513nat,
    ;
    assert(fpow(7, 63732275844302nat) == 12789856499364335502767009450859331604700211572807240670940040426699461586095nat);
    lemma_fpow_double(7, 63732275844302nat);
    assert(fmul(12789856499364335502767009450859331604700211572807240670940040426699461586095nat, 12789856499364335502767009450859331604700211572807240670940040426699461586095nat) == 4914833714917671776936566307493143960022254268752328533692764738653480540736nat) by (nonlinear_arith)
        requires
            modulus() == 52435875175126190479447740508185965837690552500527637822603658699938581184513nat,
    ;
    assert(fpow(7, 127464551688604nat) == 4914833714917671776936566307493143960022254268752328533692764738653480540736nat);
    assert(fmul(7, 4914833714917671776936566307493143960022254268752328533692764738653480540736nat) == 34403836004423702438555964152452007720155779881266299735849353170574363785152nat) by (nonlinear_arith)
        requires
            modulus() == 52435875175126190479447740508185965837690552500527637822603658699938581184513nat,
    ;
    assert(fpow(7, 127464551688605nat) == 34403836004423702438555964152452007720155779881266299735849353170574363785152nat);
    lemma_fpow_double(7, 127464551688605nat);
    assert(fmul(34403836004423702438555964152452007720155779881266299735849353170574363785152nat, 34403836004423702438555964152452007720155779881266299735849353170574363785152nat) == 3017821443302668513410711684817721249974028986540096669949570767226965458417nat) by (nonlinear_arith)
        requires
            modulus() == 52435875175126190479447740508185965837690552500527637822603658699938581184513nat,
    ;
    assert(fpow(7, 254929103377210nat) == 3017821443302668513410711684817721249974028986540096669949570767226965458417nat);
    lemma_fpow_double(7, 254929103377210nat);
    assert(fmul(3017821443302668513410711684817721249974028986540096669949570767226965458417nat, 3017821443302668513410711684817721249974028986540096669949570767226965458417nat) == 46201662182461257091318253803710512987386495684569048339124536702831078444217nat) by (nonlinear_arith)
        requires
            modulus() == 52435875175126190479447740508185965837690552500527637822603658699938581184513nat,
    ;
    assert(fpow(7, 509858206754420nat) == 46201662182461257091318253803710512987386495684569048339124536702831078444217nat);
    assert(fmul(7, 46201662182461257091318253803710512987386495684569048339124536702831078444217nat) == 8796384226471656762541333576857795885562154788817511438249804720186062002441nat) by (nonlinear_arith)
        requires
            modulus() == 52435875175126190479447740508185965837690552500527637822603658699938581184513nat,
    ;
    assert(fpow(7, 509858206754421nat) == 8796384226471656762541333576857795885562154788817511438249804720186062002441nat);
}

proof fn lemma_generator_power_5()
    ensures
        fpow(7, 2088379214866112338nat) == 16997562554633069491027547104628413592728860559060324608741804946701517626228nat,
{
    lemma_generator_power_4();
    lemma_fpow_double(7, 509858206754421nat);
    assert(fmul(8796384226471656762541333576857795885562154788817511438249804720186062002441nat, 8796384226471656762541333576857795885562154788817511438249804720186062002441nat) == 27328233832150853343775106053450515715317253662427506208527454245514188990383nat) by (nonlinear_arith)
        requires
            modulus() == 52435875175126190479447740508185965837690552500527637822603658699938581184513nat,
    ;
    assert(fpow(7, 1019716413508842nat) == 27328233832150853343775106053450515715317253662427506208527454245514188990383nat);
    assert(fmul(7, 27328233832150853343775106053450515715317253662427506208527454245514188990383nat) == 33990011299677401968082520849595712494149118135409629991881203618783579379142nat) by (nonlinear_arith)
        requires
            modulus() == 52435875175126190479447740508185965837690552500527637822603658699938581184513nat,
    ;
    assert(fpow(7, 1019716413508843nat) == 33990011299677401968082520849595712494149118135409629991881203618783579379142nat);
    lemma_fpow_double(7, 1019716413508843nat);
    assert(fmul(33990011299677401968082520849595712494149118135409629991881203618783579379142nat, 33990011299677401968082520849595712494149118135409629991881203618783579379142nat) == 41953783850502062275380087696370247762395685930369957997373012296655209659913nat) by (nonlinear_arith)
        requires
            modulus() == 52435875175126190479447740508185965837690552500527637822603658699938581184513nat,
    ;
    assert(fpow(7, 2039432827017686nat) == 41953783850502062275380087696370247762395685930369957997373012296655209659913nat);
    assert(fmul(7, 41953783850502062275380087696370247762395685930369957997373012296655209659913nat) == 31497111077883483530421911333661905148317039009951516868592792576893561696826nat) by (nonlinear_arith)
        requires
            modulus() == 52435875175126190479447740508185965837690552500527637822603658699938581184513nat,
    ;
    assert(fpow(7, 2039432827017687nat) == 31497111077883483530421911333661905148317039009951516868592792576893561696826nat);
    lemma_fpow_double(7, 2039432827017687nat);
    assert(fmul(31497111077883483530421911333661905148317039009951516868592792576893561696826nat, 31497111077883483530421911333661905148317039009951516868592792576893561696826nat) == 38114153123001674012474138334852983855292907054951084961427547039361353447278nat) by (nonlinear_arith)
        requires
            modulus() == 52435875175126190479447740508185965837690552500527637822603658699938581184513nat,
    ;
    assert(fpow(7, 4078865654035374nat) == 38114153123001674012474138334852983855292907054951084961427547039361353447278nat);
    assert(fmul(7, 38114153123001674012474138334852983855292907054951084961427547039361353447278nat) == 4619695985380765690080265803041057798597586882019405616974535775836568208381nat) by (nonlinear_arith)
        requires
            modulus() == 52435875175126190479447740508185965837690552500527637822603658699938581184513nat,
    ;
    assert(fpow(7, 4078865654035375nat) == 4619695985380765690080265803041057798597586882019405616974535775836568208381nat);
    lemma_fpow_double(7, 4078865654035375nat);
    assert(fmul(4619695985380765690080265803041057798597586882019405616974535775836568208381nat, 4619695985380765690080265803041057798597586882019405616974535775836568208381nat) == 41391883585984179264867249016075272371703700611770513199247570000891209365007nat) by (nonlinear_arith)
        requires
            modulus() == 52435875175126190479447740508185965837690552500527637822603658699938581184513nat,
    ;
    assert(fpow(7, 8157731308070750nat) == 41391883585984179264867249016075272371703700611770513199247570000891209365007nat);
    assert(fmul(7, 41391883585984179264867249016075272371703700611770513199247570000891209365007nat) == 27563809226258302456832040571597077413473141779755403281714696506545559632484nat) by (nonlinear_arith)
        requires
            modulus() == 52435875175126190479447740508185965837690552500527637822603658699938581184513nat,
    ;
    assert(fpow(7, 8157731308070751nat) == 27563809226258302456832040571597077413473141779755403281714696506545559632484nat);
    lemma_fpow_double(7, 8157731308070751nat);
    assert(fmul(27563809226258302456832040571597077413473141779755403281714696506545559632484nat, 27563809226258302456832040571597077413473141779755403281714696506545559632484nat) == 44661102871155277717782349443448644733480483784987523149512827103810545135079nat) by (nonlinear_arith)
        requires
            modulus() == 52435875175126190479447740508185965837690552500527637822603658699938581184513nat,
    ;
    assert(fpow(7, 16315462616141502nat) == 44661102871155277717782349443448644733480483784987523149512827103810545135079nat);
    lemma_fpow_double(7, 16315462616141502nat);
    assert(fmul(44661102871155277717782349443448644733480483784987523149512827103810545135079nat, 44661102871155277717782349443448644733480483784987523149512827103810545135079nat) == 35730956363075619991854464193788789967724077685335948795253899874002011291758nat) by (nonlinear_arith)
        requires
            modulus() == 52435875175126190479447740508185965837690552500527637822603658699938581184513nat,
    ;
    assert(fpow(7, 32630925232283004nat) == 35730956363075619991854464193788789967724077685335948795253899874002011291758nat);
    assert(fmul(7, 35730956363075619991854464193788789967724077685335948795253899874002011291758nat) == 40373193841024578025190287323777666423306333795241090276362664318259754304254nat) by (nonlinear_arith)
        requires
            modulus() == 52435875175126190479447740508185965837690552500527637822603658699938581184513nat,
    ;
    assert(fpow(7, 32630925232283005nat) == 40373193841024578025190287323777666423306333795241090276362664318259754304254nat);
    lemma_fpow_double(7, 32630925232283005nat);
    assert(fmul(40373193841024578025190287323777666423306333795241090276362664318259754304254nat, 40373193841024578025190287323777666423306333795241090276362664318259754304254nat) == 8793409015524651562977129810873344359790030995341499311913894491807768443663nat) by (nonlinear_arith)
        requires
            modulus() == 52435875175126190479447740508185965837690552500527637822603658699938581184513nat,
    ;
    assert(fpow(7, 65261850464566010nat) == 8793409015524651562977129810873344359790030995341499311913894491807768443663nat);
    lemma_fpow_double(7, 65261850464566010nat);
    assert(fmul(8793409015524651562977129810873344359790030995341499311913894491807768443663nat, 8793409015524651562977129810873344359790030995341499311913894491807768443663nat) == 26287727043560202948393323263882283635476194759517919720437703215572282503910nat) by (nonlinear_arith)
        requires
            modulus() == 52435875175126190479447740508185965837690552500527637822603658699938581184513nat,
    ;
    assert(fpow(7, 130523700929132020nat) == 26287727043560202948393323263882283635476194759517919720437703215572282503910nat);
    assert(fmul(7, 26287727043560202948393323263882283635476194759517919720437703215572282503910nat) == 26706463779542849200410041322618087935261705815042524575252946409190233973831nat) by (nonlinear_arith)
        requires
            modulus() == 52435875175126190479447740508185965837690552500527637822603658699938581184513nat,
    ;
    assert(fpow(7, 130523700929132021nat) == 26706463779542849200410041322618087935261705815042524575252946409190233973831nat);
    lemma_fpow_double(7, 130523700929132021nat);
    assert(fmul(26706463779542849200410041322618087935261705815042524575252946409190233973831nat, 26706463779542849200410041322618087935261705815042524575252946409190233973831nat) == 20208610612304078104857579435534307978543889498570469963486099926410269801971nat) by (nonlinear_arith)
        requires
            modulus() == 52435875175126190479447740508185965837690552500527637822603658699938581184513nat,
    ;
    assert(fpow(7, 261047401858264042nat) == 20208610612304078104857579435534307978543889498570469963486099926410269801971nat);
    lemma_fpow_double(7, 261047401858264042nat);
    assert(fmul(20208610612304078104857579435534307978543889498570469963486099926410269801971nat, 20208610612304078104857579435534307978543889498570469963486099926410269801971nat) == 22271208203811712892065603975171476400575243446436565825002129509164270574220nat) by (nonlinear_arith)
        requires
            modulus() == 52435875175126190479447740508185965837690552500527637822603658699938581184513nat,
    ;
    assert(fpow(7, 522094803716528084nat) == 22271208203811712892065603975171476400575243446436565825002129509164270574220nat);
    lemma_fpow_double(7, 522094803716528084nat);
    assert(fmul(22271208203811712892065603975171476400575243446436565825002129509164270574220nat, 22271208203811712892065603975171476400575243446436565825002129509164270574220nat) == 10910113048812923853118114585099356133888891633577982599523042133959742541450nat) by (nonlinear_arith)
        requires
            modulus() == 52435875175126190479447740508185965837690552500527637822603658699938581184513nat,
    ;
    assert(fpow(7, 1044189607433056168nat) == 10910113048812923853118114585099356133888891633577982599523042133959742541450nat);
    assert(fmul(7, 10910113048812923853118114585099356133888891633577982599523042133959742541450nat) == 23934916166564276492379061587509527099531688934518240374057636237779616605637nat) by (nonlinear_arith)
        requires
            modulus() == 52435875175126190479447740508185965837690552500527637822603658699938581184513nat,
    ;
    assert(fpow(7, 1044189607433056169nat) == 23934916166564276492379061587509527099531688934518240374057636237779616605637nat);
    lemma_fpow_double(7, 1044189607433056169nat);
    assert(fmul(23934916166564276492379061587509527099531688934518240374057636237779616605637nat, 23934916166564276492379061587509527099531688934518240374057636237779616605637nat) == 16997562554633069491027547104628413592728860559060324608741804946701517626228nat) by (nonlinear_arith)
        requires
            modulus() == 52435875175126190479447740508185965837690552500527637822603658699938581184513nat,
    ;
    assert(fpow(7, 2088379214866112338nat) == 16997562554633069491027547104628413592728860559060324608741804946701517626228nat);
}

proof fn lemma_generator_power_6()
    ensures
        fpow(7, 8554001264091596136652nat) == 20211043734294855002994916478447835319796151361574642952941447308393405313716nat,
{
    lemma_generator_power_5();
    lemma_fpow_double(7, 2088379214866112338nat);
    assert(fmul(16997562554633069491027547104628413592728860559060324608741804946701517626228nat, 16997562554633069491027547104628413592728860559060324608741804946701517626228nat) == 10849406125948736573694375775135659237417726401501653842901790078275768873847nat) by (nonlinear_arith)
        requires
            modulus() == 52435875175126190479447740508185965837690552500527637822603658699938581184513nat,
    ;
    assert(fpow(7, 4176758429732224676nat) == 10849406125948736573694375775135659237417726401501653842901790078275768873847nat);
    lemma_fpow_double(7, 4176758429732224676nat);
    assert(fmul(10849406125948736573694375775135659237417726401501653842901790078275768873847nat, 10849406125948736573694375775135659237417726401501653842901790078275768873847nat) == 565288174552152271382022056477377743536699998195153647960848897446522389495nat) by (nonlinear_arith)
        requires
            modulus() == 52435875175126190479447740508185965837690552500527637822603658699938581184513nat,
    ;
    assert(fpow(7, 8353516859464449352nat) == 565288174552152271382022056477377743536699998195153647960848897446522389495nat);
    lemma_fpow_double(7, 8353516859464449352nat);
    assert(fmul(565288174552152271382022056477377743536699998195153647960848897446522389495nat, 565288174552152271382022056477377743536699998195153647960848897446522389495nat) == 6954981720455459529914825488024541800088992844792280731759706829297719119123nat) by (nonlinear_arith)
        requires
            modulus() == 52435875175126190479447740508185965837690552500527637822603658699938581184513nat,
    ;
    assert(fpow(7, 16707033718928898704nat) == 6954981720455459529914825488024541800088992844792280731759706829297719119123nat);
    lemma_fpow_double(7, 16707033718928898704nat);
    assert(fmul(6954981720455459529914825488024541800088992844792280731759706829297719119123nat, 6954981720455459529914825488024541800088992844792280731759706829297719119123nat) == 4657578438477497526011666404425691202604317455406874705372936749212068589018nat) by (nonlinear_arith)
        requires
            modulus() == 52435875175126190479447740508185965837690552500527637822603658699938581184513nat,
    ;
    assert(fpow(7, 33414067437857797408nat) == 4657578438477497526011666404425691202604317455406874705372936749212068589018nat);
    lemma_fpow_double(7, 33414067437857797408nat);
    assert(fmul(4657578438477497526011666404425691202604317455406874705372936749212068589018nat, 4657578438477497526011666404425691202604317455406874705372936749212068589018nat) == 47082858439731893032708718751842899146381254763239088474754622466048427965504nat) by (nonlinear_arith)
        requires
            modulus() == 52435875175126190479447740508185965837690552500527637822603658699938581184513nat,
    ;
    assert(fpow(7, 66828134875715594816nat) == 47082858439731893032708718751842899146381254763239088474754622466048427965504nat);
    assert(fmul(7, 47082858439731893032708718751842899146381254763239088474754622466048427965504nat) == 14964758027366108352274588213784498998525468339507792387660405062707508651450nat) by (nonlinear_arith)
        requires
            modulus() == 52435875175126190479447740508185965837690552500527637822603658699938581184513nat,
    ;
    assert(fpow(7, 66828134875715594817nat) == 14964758027366108352274588213784498998525468339507792387660405062707508651450nat);
    lemma_fpow_double(7, 66828134875715594817nat);
    assert(fmul(14964758027366108352274588213784498998525468339507792387660405062707508651450nat, 14964758027366108352274588213784498998525468339507792387660405062707508651450nat) == 10837365928720576678620747955478108940346449366926325625661013654392020189511nat) by (nonlinear_arith)
        requires
            modulus() == 52435875175126190479447740508185965837690552500527637822603658699938581184513nat,
    ;
    assert(fpow(7, 133656269751431189634nat) == 10837365928720576678620747955478108940346449366926325625661013654392020189511nat);
    assert(fmul(7, 10837365928720576678620747955478108940346449366926325625661013654392020189511nat) == 23425686325917846270897495180160796744734593067956641557023436880805560142064nat) by (nonlinear_arith)
        requires
            modulus() == 52435875175126190479447740508185965837690552500527637822603658699938581184513nat,
    ;
    assert(fpow(7, 133656269751431189635nat) == 23425686325917846270897495180160796744734593067956641557023436880805560142064nat);
    lemma_fpow_double(7, 133656269751431189635nat);
    assert(fmul(23425686325917846270897495180160796744734593067956641557023436880805560142064nat, 23425686325917846270897495180160796744734593067956641557023436880805560142064nat) == 5053398502294102117630388466461251538804435003181271277742179693191615895625nat) by (nonlinear_arith)
        requires
            modulus() == 52435875175126190479447740508185965837690552500527637822603658699938581184513nat,
    ;
    assert(fpow(7, 267312539502862379270nat) == 5053398502294102117630388466461251538804435003181271277742179693191615895625nat);
    lemma_fpow_double(7, 267312539502862379270nat);
    assert(fmul(5053398502294102117630388466461251538804435003181271277742179693191615895625nat, 5053398502294102117630388466461251538804435003181271277742179693191615895625nat) == 39943013088723629852982319558761706776467528578223889287145769839448371371264nat) by (nonlinear_arith)
        requires
            modulus() == 52435875175126190479447740508185965837690552500527637822603658699938581184513nat,
    ;
    assert(fpow(7, 534625079005724758540nat) == 39943013088723629852982319558761706776467528578223889287145769839448371371264nat);
    lemma_fpow_double(7, 534625079005724758540nat);
    assert(fmul(39943013088723629852982319558761706776467528578223889287145769839448371371264nat, 39943013088723629852982319558761706776467528578223889287145769839448371371264nat) == 25439403247363741581114838941010507220517164517700439205548944576961301465193nat) by (nonlinear_arith)
        requires
            modulus() == 52435875175126190479447740508185965837690552500527637822603658699938581184513nat,
    ;
    assert(fpow(7, 1069250158011449517080nat) == 25439403247363741581114838941010507220517164517700439205548944576961301465193nat);
    assert(fmul(7, 25439403247363741581114838941010507220517164517700439205548944576961301465193nat) == 20768197206167619629460651062515653030548494122320160971031635938913366702812nat) by (nonlinear_arith)
        requires
            modulus() == 52435875175126190479447740508185965837690552500527637822603658699938581184513nat,
    ;
    assert(fpow(7, 1069250158011449517081nat) == 20768197206167619629460651062515653030548494122320160971031635938913366702812nat);
    lemma_fpow_double(7, 1069250158011449517081nat);
    assert(fmul(20768197206167619629460651062515653030548494122320160971031635938913366702812nat, 20768197206167619629460651062515653030548494122320160971031635938913366702812nat) == 18491949051586856556136958946833175827571427498695599111384915433588515826340nat) by (nonlinear_arith)
        requires
            modulus() == 52435875175126190479447740508185965837690552500527637822603658699938581184513nat,
    ;
    assert(fpow(7, 2138500316022899034162nat) == 18491949051586856556136958946833175827571427498695599111384915433588515826340nat);
    assert(fmul(7, 18491949051586856556136958946833175827571427498695599111384915433588515826340nat) == 24571893010855614934063231611460299117618887489813918134487090635242448415354nat) by (nonlinear_arith)
        requires
            modulus() == 52435875175126190479447740508185965837690552500527637822603658699938581184513nat,
    ;
    assert(fpow(7, 2138500316022899034163nat) == 24571893010855614934063231611460299117618887489813918134487090635242448415354nat);
    lemma_fpow_double(7, 2138500316022899034163nat);
    assert(fmul(24571893010855614934063231611460299117618887489813918134487090635242448415354nat, 24571893010855614934063231611460299117618887489813918134487090635242448415354nat) == 1921065008112394845114692780022855649047464802324335048775994628093095345830nat) by (nonlinear_arith)
        requires
            modulus() == 52435875175126190479447740508185965837690552500527637822603658699938581184513nat,
    ;
    assert(fpow(7, 4277000632045798068326nat) == 1921065008112394845114692780022855649047464802324335048775994628093095345830nat);
    lemma_fpow_double(7, 4277000632045798068326nat);
    assert(fmul(1921065008112394845114692780022855649047464802324335048775994628093095345830nat, 1921065008112394845114692780022855649047464802324335048775994628093095345830nat) == 20211043734294855002994916478447835319796151361574642952941447308393405313716nat) by (nonlinear_arith)
        requires
            modulus() == 52435875175126190479447740508185965837690552500527637822603658699938581184513nat,
    ;
    assert(fpow(7, 8554001264091596136652nat) == 20211043734294855002994916478447835319796151361574642952941447308393405313716nat);
}

proof fn lemma_generator_power_7()
    ensures
        fpow(7, 35037189177719177775730294nat) == 30755038176274359538707700483094758817941076190119439227326562709452047673514nat,
{
    lemma_generator_power_6();
    lemma_fpow_double(7, 8554001264091596136652nat);
    assert(fmul(20211043734294855002994916478447835319796151361574642952941447308393405313716nat, 20211043734294855002994916478447835319796151361574642952941447308393405313716nat) == 3173348409247102928281037435514827979910676006033902278321652971179254887608nat) by (nonlinear_arith)
        requires
            modulus() == 52435875175126190479447740508185965837690552500527637822603658699938581184513nat,
    ;
    assert(fpow(7, 17108002528183192273304nat) == 3173348409247102928281037435514827979910676006033902278321652971179254887608nat);
    assert(fmul(7, 3173348409247102928281037435514827979910676006033902278321652971179254887608nat) == 22213438864729720497967262048603795859374732042237315948251570798254784213256nat) by (nonlinear_arith)
        requires
            modulus() == 52435875175126190479447740508185965837690552500527637822603658699938581184513nat,
    ;
    assert(fpow(7, 17108002528183192273305nat) == 22213438864729720497967262048603795859374732042237315948251570798254784213256nat);
    lemma_fpow_double(7, 17108002528183192273305nat);
    assert(fmul(22213438864729720497967262048603795859374732042237315948251570798254784213256nat, 22213438864729720497967262048603795859374732042237315948251570798254784213256nat) == 16549799555420816187972429183531473973354540578353948971163400876265448335147nat) by (nonlinear_arith)
        requires
            modulus() == 52435875175126190479447740508185965837690552500527637822603658699938581184513nat,
    ;
    assert(fpow(7, 34216005056366384546610nat) == 16549799555420816187972429183531473973354540578353948971163400876265448335147nat);
    assert(fmul(7, 16549799555420816187972429183531473973354540578353948971163400876265448335147nat) == 10976846537693332356911523268348386138100679047422367152936488733980975977003nat) by (nonlinear_arith)
        requires
            modulus() == 52435875175126190479447740508185965837690552500527637822603658699938581184513nat,
    ;
    assert(fpow(7, 34216005056366384546611nat) == 10976846537693332356911523268348386138100679047422367152936488733980975977003nat);
    lemma_fpow_double(7, 34216005056366384546611nat);
    assert(fmul(10976846537693332356911523268348386138100679047422367152936488733980975977003nat, 10976846537693332356911523268348386138100679047422367152936488733980975977003nat) == 50556480661247749824376180121333738400148445019774371746227669729450386675006nat) by (nonlinear_arith)
        requires
            modulus() == 52435875175126190479447740508185965837690552500527637822603658699938581184513nat,
    ;
    assert(fpow(7, 68432010112732769093222nat) == 50556480661247749824376180121333738400148445019774371746227669729450386675006nat);
    assert(fmul(7, 50556480661247749824376180121333738400148445019774371746227669729450386675006nat) == 39280113577977105893946817800220373774895800135254775287971735906521219617964nat) by (nonlinear_arith)
        requires
            modulus() == 52435875175126190479447740508185965837690552500527637822603658699938581184513nat,
    ;
    assert(fpow(7, 68432010112732769093223nat) == 39280113577977105893946817800220373774895800135254775287971735906521219617964nat);
    lemma_fpow_double(7, 68432010112732769093223nat);
    assert(fmul(39280113577977105893946817800220373774895800135254775287971735906521219617964nat, 39280113577977105893946817800220373774895800135254775287971735906521219617964nat) == 37167175286514574705811928457362264955584123510870705631336382075456213737660nat) by (nonlinear_arith)
        requires
            modulus() == 52435875175126190479447740508185965837690552500527637822603658699938581184513nat,
    ;
    assert(fpow(7, 136864020225465538186446nat) == 37167175286514574705811928457362264955584123510870705631336382075456213737660nat);
    lemma_fpow_double(7, 136864020225465538186446nat);
    assert(fmul(37167175286514574705811928457362264955584123510870705631336382075456213737660nat, 37167175286514574705811928457362264955584123510870705631336382075456213737660nat) == 36712270636867509138454966699446650458662825142398861936643824109726493524275nat) by (nonlinear_arith)
        requires
            modulus() == 52435875175126190479447740508185965837690552500527637822603658699938581184513nat,
    ;
    assert(fpow(7, 273728040450931076372892nat) == 36712270636867509138454966699446650458662825142398861936643824109726493524275nat);
    lemma_fpow_double(7, 273728040450931076372892nat);
    assert(fmul(36712270636867509138454966699446650458662825142398861936643824109726493524275nat, 36712270636867509138454966699446650458662825142398861936643824109726493524275nat) == 32168097752865249378986032761967365609766179633565045260536872888964898797733nat) by (nonlinear_arith)
        requires
            modulus() == 52435875175126190479447740508185965837690552500527637822603658699938581184513nat,
    ;
    assert(fpow(7, 547456080901862152745784nat) == 32168097752865249378986032761967365609766179633565045260536872888964898797733nat);
    assert(fmul(7, 32168097752865249378986032761967365609766179633565045260536872888964898797733nat) == 15433183569551983735111267301027695917601047432844765533343475422999966846079nat) by (nonlinear_arith)
        requires
            modulus() == 52435875175126190479447740508185965837690552500527637822603658699938581184513nat,
    ;
    assert(fpow(7, 547456080901862152745785nat) == 15433183569551983735111267301027695917601047432844765533343475422999966846079nat);
    lemma_fpow_double(7, 547456080901862152745785nat);
    assert(fmul(15433183569551983735111267301027695917601047432844765533343475422999966846079nat, 15433183569551983735111267301027695917601047432844765533343475422999966846079nat) == 44237009105652903468200602680037229571216764219537022594214009443261970983353nat) by (nonlinear_arith)
        requires
            modulus() == 52435875175126190479447740508185965837690552500527637822603658699938581184513nat,
    ;
    assert(fpow(7, 1094912161803724305491570nat) == 44237009105652903468200602680037229571216764219537022594214009443261970983353nat);
    assert(fmul(7, 44237009105652903468200602680037229571216764219537022594214009443261970983353nat) == 47479687863939371880165516219330777810064587034120969046479772603140890960906nat) by (nonlinear_arith)
        requires
            modulus() == 52435875175126190479447740508185965837690552500527637822603658699938581184513nat,
    ;
    assert(fpow(7, 1094912161803724305491571nat) == 47479687863939371880165516219330777810064587034120969046479772603140890960906nat);
    lemma_fpow_double(7, 1094912161803724305491571nat);
    assert(fmul(47479687863939371880165516219330777810064587034120969046479772603140890960906nat, 47479687863939371880165516219330777810064587034120969046479772603140890960906nat) == 50937246372456138579923091596483644034178973736855302127200043319229152861523nat) by (nonlinear_arith)
        requires
            modulus() == 52435875175126190479447740508185965837690552500527637822603658699938581184513nat,
    ;
    assert(fpow(7, 2189824323607448610983142nat) == 50937246372456138579923091596483644034178973736855302127200043319229152861523nat);
    assert(fmul(7, 50937246372456138579923091596483644034178973736855302127200043319229152861523nat) == 41945473556435827182775198126269713213109501154821287954778351034972582923583nat) by (nonlinear_arith)
        requires
            modulus() == 52435875175126190479447740508185965837690552500527637822603658699938581184513nat,
    ;
    assert(fpow(7, 2189824323607448610983143nat) == 41945473556435827182775198126269713213109501154821287954778351034972582923583nat);
    lemma_fpow_double(7, 2189824323607448610983143nat);
    assert(fmul(41945473556435827182775198126269713213109501154821287954778351034972582923583nat, 41945473556435827182775198126269713213109501154821287954778351034972582923583nat) == 20978249366510441623630856408123427597574838307176931582360647538956887640051nat) by (nonlinear_arith)
        requires
            modulus() == 52435875175126190479447740508185965837690552500527637822603658699938581184513nat,
    ;
    assert(fpow(7, 4379648647214897221966286nat) == 20978249366510441623630856408123427597574838307176931582360647538956887640051nat);
    lemma_fpow_double(7, 4379648647214897221966286nat);
    assert(fmul(20978249366510441623630856408123427597574838307176931582360647538956887640051nat, 20978249366510441623630856408123427597574838307176931582360647538956887640051nat) == 15547057677373299766398282031363863068524907788848339765602764486307255747061nat) by (nonlinear_arith)
        requires
            modulus() == 52435875175126190479447740508185965837690552500527637822603658699938581184513nat,
    ;
    assert(fpow(7, 8759297294429794443932572nat) == 15547057677373299766398282031363863068524907788848339765602764486307255747061nat);
    assert(fmul(7, 15547057677373299766398282031363863068524907788848339765602764486307255747061nat) == 3957653391360717405892493203175109804293249520883102714012034004273627860401nat) by (nonlinear_arith)
        requires
            modulus() == 52435875175126190479447740508185965837690552500527637822603658699938581184513nat,
    ;
    assert(fpow(7, 8759297294429794443932573nat) == 3957653391360717405892493203175109804293249520883102714012034004273627860401nat);
    lemma_fpow_double(7, 8759297294429794443932573nat);
    assert(fmul(3957653391360717405892493203175109804293249520883102714012034004273627860401nat, 3957653391360717405892493203175109804293249520883102714012034004273627860401nat) == 22217938025398064723750782822415355131983439609348233143190159653467115750738nat) by (nonlinear_arith)
        requires
            modulus() == 52435875175126190479447740508185965837690552500527637822603658699938581184513nat,
    ;
    assert(fpow(7, 17518594588859588887865146nat) == 22217938025398064723750782822415355131983439609348233143190159653467115750738nat);
    assert(fmul(7, 22217938025398064723750782822415355131983439609348233143190159653467115750738nat) == 50653815827534072107359998740535554248502972264382356357123800174392647886140nat) by (nonlinear_arith)
        requires
            modulus() == 52435875175126190479447740508185965837690552500527637822603658699938581184513nat,
    ;
    assert(fpow(7, 17518594588859588887865147nat) == 50653815827534072107359998740535554248502972264382356357123800174392647886140nat);
    lemma_fpow_double(7, 17518594588859588887865147nat);
    assert(fmul(50653815827534072107359998740535554248502972264382356357123800174392647886140nat, 50653815827534072107359998740535554248502972264382356357123800174392647886140nat) == 30755038176274359538707700483094758817941076190119439227326562709452047673514nat) by (nonlinear_arith)
        requires
            modulus() == 52435875175126190479447740508185965837690552500527637822603658699938581184513nat,
    ;
    assert(fpow(7, 35037189177719177775730294nat) == 30755038176274359538707700483094758817941076190119439227326562709452047673514nat);
}

proof fn lemma_generator_power_8()
    ensures
        fpow(7, 143512326871937752169391284256nat) == 19808391940299695280421066020666180166280141364439361754570393626483478651576nat,
{
    lemma_generator_power_7();
    lemma_fpow_double(7, 35037189177719177775730294nat);
    assert(fmul(30755038176274359538707700483094758817941076190119439227326562709452047673514nat, 30755038176274359538707700483094758817941076190119439227326562709452047673514nat) == 34214885581098000336948158268434676012155604033277062518785966397810258439228nat) by (nonlinear_arith)
        requires
            modulus() == 52435875175126190479447740508185965837690552500527637822603658699938581184513nat,
    ;
    assert(fpow(7, 70074378355438355551460588nat) == 34214885581098000336948158268434676012155604033277062518785966397810258439228nat);
    lemma_fpow_double(7, 70074378355438355551460588nat);
    assert(fmul(34214885581098000336948158268434676012155604033277062518785966397810258439228nat, 34214885581098000336948158268434676012155604033277062518785966397810258439228nat) == 38019113707809371032489532029213613753089180651533624521192486947878628947025nat) by (nonlinear_arith)
        requires
            modulus() == 52435875175126190479447740508185965837690552500527637822603658699938581184513nat,
    ;
    assert(fpow(7, 140148756710876711102921176nat) == 38019113707809371032489532029213613753089180651533624521192486947878628947025nat);
    lemma_fpow_double(7, 140148756710876711102921176nat);
    assert(fmul(38019113707809371032489532029213613753089180651533624521192486947878628947025nat, 38019113707809371032489532029213613753089180651533624521192486947878628947025nat) == 29278592656628395002788119143040239854733453413021109174616804613724436606335nat) by (nonlinear_arith)
        requires
            modulus() == 52435875175126190479447740508185965837690552500527637822603658699938581184513nat,
    ;
    assert(fpow(7, 280297513421753422205842352nat) == 29278592656628395002788119143040239854733453413021109174616804613724436606335nat);
    lemma_fpow_double(7, 280297513421753422205842352nat);
    assert(fmul(29278592656628395002788119143040239854733453413021109174616804613724436606335nat, 29278592656628395002788119143040239854733453413021109174616804613724436606335nat) == 37935520921000092017666583823337636937716882453404269097902628930753486591623nat) by (nonlinear_arith)
        requires
            modulus() == 52435875175126190479447740508185965837690552500527637822603658699938581184513nat,
    ;
    assert(fpow(7, 560595026843506844411684704nat) == 37935520921000092017666583823337636937716882453404269097902628930753486591623nat);
    lemma_fpow_double(7, 560595026843506844411684704nat);
    assert(fmul(37935520921000092017666583823337636937716882453404269097902628930753486591623nat, 37935520921000092017666583823337636937716882453404269097902628930753486591623nat) == 10454702271275726019778020656573353131886920485386831311893670601877760291828nat) by (nonlinear_arith)
        requires
            modulus() == 52435875175126190479447740508185965837690552500527637822603658699938581184513nat,
    ;
    assert(fpow(7, 1121190053687013688823369408nat) == 10454702271275726019778020656573353131886920485386831311893670601877760291828nat);
    lemma_fpow_double(7, 1121190053687013688823369408nat);
    assert(fmul(10454702271275726019778020656573353131886920485386831311893670601877760291828nat, 10454702271275726019778020656573353131886920485386831311893670601877760291828nat) == 47914997526756992310922113611061941628351932418964410845403981778185161728044nat) by (nonlinear_arith)
        requires
            modulus() == 52435875175126190479447740508185965837690552500527637822603658699938581184513nat,
    ;
    assert(fpow(7, 2242380107374027377646738816nat) == 47914997526756992310922113611061941628351932418964410845403981778185161728044nat);
    lemma_fpow_double(7, 2242380107374027377646738816nat);
    assert(fmul(47914997526756992310922113611061941628351932418964410845403981778185161728044nat, 47914997526756992310922113611061941628351932418964410845403981778185161728044nat) == 21924769926626552123402783610443962861085399488158233123152277841008357138913nat) by (nonlinear_arith)
        requires
            modulus() == 52435875175126190479447740508185965837690552500527637822603658699938581184513nat,
    ;
    assert(fpow(7, 4484760214748054755293477632nat) == 21924769926626552123402783610443962861085399488158233123152277841008357138913nat);
    assert(fmul(7, 21924769926626552123402783610443962861085399488158233123152277841008357138913nat) == 48601639136133483904924004256735808352216691416052356216858627487181337603365nat) by (nonlinear_arith)
        requires
            modulus() == 52435875175126190479447740508185965837690552500527637822603658699938581184513nat,
    ;
    assert(fpow(7, 4484760214748054755293477633nat) == 48601639136133483904924004256735808352216691416052356216858627487181337603365nat);
    lemma_fpow_double(7, 4484760214748054755293477633nat);
    assert(fmul(48601639136133483904924004256735808352216691416052356216858627487181337603365nat, 48601639136133483904924004256735808352216691416052356216858627487181337603365nat) == 32967251891899736109226602016829831778896761804446605788042773073206016019764nat) by (nonlinear_arith)
        requires
            modulus() == 52435875175126190479447740508185965837690552500527637822603658699938581184513nat,
    ;
    assert(fpow(7, 8969520429496109510586955266nat) == 32967251891899736109226602016829831778896761804446605788042773073206016019764nat);
    lemma_fpow_double(7, 8969520429496109510586955266nat);
    assert(fmul(32967251891899736109226602016829831778896761804446605788042773073206016019764nat, 32967251891899736109226602016829831778896761804446605788042773073206016019764nat) == 46128211719031117817636756526063442915821103915037345444815038297954215832686nat) by (nonlinear_arith)
        requires
            modulus() == 52435875175126190479447740508185965837690552500527637822603658699938581184513nat,
    ;
    assert(fpow(7, 17939040858992219021173910532nat) == 46128211719031117817636756526063442915821103915037345444815038297954215832686nat);
    lemma_fpow_double(7, 17939040858992219021173910532nat);
    assert(fmul(46128211719031117817636756526063442915821103915037345444815038297954215832686nat, 46128211719031117817636756526063442915821103915037345444815038297954215832686nat) == 21835199336475517559214094233420530427943091092922032493258427531138530132224nat) by (nonlinear_arith)
        requires
            modulus() == 52435875175126190479447740508185965837690552500527637822603658699938581184513nat,
    ;
    assert(fpow(7, 35878081717984438042347821064nat) == 21835199336475517559214094233420530427943091092922032493258427531138530132224nat);
    lemma_fpow_double(7, 35878081717984438042347821064nat);
    assert(fmul(21835199336475517559214094233420530427943091092922032493258427531138530132224nat, 21835199336475517559214094233420530427943091092922032493258427531138530132224nat) == 22911856994951417649797468856834865822935193483496118530613350554390725161612nat) by (nonlinear_arith)
        requires
            modulus() == 52435875175126190479447740508185965837690552500527637822603658699938581184513nat,
    ;
    assert(fpow(7, 71756163435968876084695642128nat) == 22911856994951417649797468856834865822935193483496118530613350554390725161612nat);
    lemma_fpow_double(7, 71756163435968876084695642128nat);
    assert(fmul(22911856994951417649797468856834865822935193483496118530613350554390725161612nat, 22911856994951417649797468856834865822935193483496118530613350554390725161612nat) == 19808391940299695280421066020666180166280141364439361754570393626483478651576nat) by (nonlinear_arith)
        requires
            modulus() == 52435875175126190479447740508185965837690552500527637822603658699938581184513nat,
    ;
    assert(fpow(7, 143512326871937752169391284256nat) == 19808391940299695280421066020666180166280141364439361754570393626483478651576nat);
}

proof fn lemma_generator_power_9()
    ensures
        fpow(7, 587826490867457032885826700313192nat) == 25275871616732425965107811431177325292032598799246468719055663389277864501179nat,
{
    lemma_generator_power_8();
    lemma_fpow_double(7, 143512326871937752169391284256nat);
    assert(fmul(19808391940299695280421066020666180166280141364439361754570393626483478651576nat, 19808391940299695280421066020666180166280141364439361754570393626483478651576nat) == 15348500761666122565476729953358925948367101297482630554562635813521755256813nat) by (nonlinear_arith)
        requires
            modulus() == 52435875175126190479447740508185965837690552500527637822603658699938581184513nat,
    ;
    assert(fpow(7, 287024653743875504338782568512nat) == 15348500761666122565476729953358925948367101297482630554562635813521755256813nat);
    lemma_fpow_double(7, 287024653743875504338782568512nat);
    assert(fmul(15348500761666122565476729953358925948367101297482630554562635813521755256813nat, 15348500761666122565476729953358925948367101297482630554562635813521755256813nat) == 23278330897705588261350485006070682381231933991218796140719356708354887460247nat) by (nonlinear_arith)
        requires
            modulus() == 52435875175126190479447740508185965837690552500527637822603658699938581184513nat,
    ;
    assert(fpow(7, 574049307487751008677565137024nat) == 23278330897705588261350485006070682381231933991218796140719356708354887460247nat);
    lemma_fpow_double(7, 574049307487751008677565137024nat);
    assert(fmul(23278330897705588261350485006070682381231933991218796140719356708354887460247nat, 23278330897705588261350485006070682381231933991218796140719356708354887460247nat) == 10041244370887318612220102227267305388674212280220398473059601371638717711642nat) by (nonlinear_arith)
        requires
            modulus() == 52435875175126190479447740508185965837690552500527637822603658699938581184513nat,
    ;
    assert(fpow(7, 1148098614975502017355130274048nat) == 10041244370887318612220102227267305388674212280220398473059601371638717711642nat);
    assert(fmul(7, 10041244370887318612220102227267305388674212280220398473059601371638717711642nat) == 17852835421085039806092975082685171883028933461015151488813550901532442796981nat) by (nonlinear_arith)
        requires
            modulus() == 52435875175126190479447740508185965837690552500527637822603658699938581184513nat,
    ;
    assert(fpow(7, 1148098614975502017355130274049nat) == 17852835421085039806092975082685171883028933461015151488813550901532442796981nat);
    lemma_fpow_double(7, 1148098614975502017355130274049nat);
    assert(fmul(17852835421085039806092975082685171883028933461015151488813550901532442796981nat, 17852835421085039806092975082685171883028933461015151488813550901532442796981nat) == 22595109106074254807980650404784657385676579005013171773178992831804177347804nat) by (nonlinear_arith)
        requires
            modulus() == 52435875175126190479447740508185965837690552500527637822603658699938581184513nat,
    ;
    assert(fpow(7, 2296197229951004034710260548098nat) == 22595109106074254807980650404784657385676579005013171773178992831804177347804nat);
    lemma_fpow_double(7, 2296197229951004034710260548098nat);
    assert(fmul(22595109106074254807980650404784657385676579005013171773178992831804177347804nat, 22595109106074254807980650404784657385676579005013171773178992831804177347804nat) == 17342184332947129451303380139207664341301261883403338177298215028680260939341nat) by (nonlinear_arith)
        requires
            modulus() == 52435875175126190479447740508185965837690552500527637822603658699938581184513nat,
    ;
    assert(fpow(7, 4592394459902008069420521096196nat) == 17342184332947129451303380139207664341301261883403338177298215028680260939341nat);
    lemma_fpow_double(7, 4592394459902008069420521096196nat);
    assert(fmul(17342184332947129451303380139207664341301261883403338177298215028680260939341nat, 17342184332947129451303380139207664341301261883403338177298215028680260939341nat) == 20519662163812485633790115689280932102587853942021166858961916659060680942895nat) by (nonlinear_arith)
        requires
            modulus() == 52435875175126190479447740508185965837690552500527637822603658699938581184513nat,
    ;
    assert(fpow(7, 9184788919804016138841042192392nat) == 20519662163812485633790115689280932102587853942021166858961916659060680942895nat);
    assert(fmul(7, 20519662163812485633790115689280932102587853942021166858961916659060680942895nat) == 38765884796435018477635328808594593042733872593092892367526099213547604231239nat) by (nonlinear_arith)
        requires
            modulus() == 52435875175126190479447740508185965837690552500527637822603658699938581184513nat,
    ;
    assert(fpow(7, 9184788919804016138841042192393nat) == 38765884796435018477635328808594593042733872593092892367526099213547604231239nat);
    lemma_fpow_double(7, 9184788919804016138841042192393nat);
    assert(fmul(38765884796435018477635328808594593042733872593092892367526099213547604231239nat, 38765884796435018477635328808594593042733872593092892367526099213547604231239nat) == 36653212945767933891537532691741750117656152990906939722581744359861575133525nat) by (nonlinear_arith)
        requires
            modulus() == 52435875175126190479447740508185965837690552500527637822603658699938581184513nat,
    ;
    assert(fpow(7, 18369577839608032277682084384786nat) == 36653212945767933891537532691741750117656152990906939722581744359861575133525nat);
    assert(fmul(7, 36653212945767933891537532691741750117656152990906939722581744359861575133525nat) == 46828989919870775322971766809448387472830860934238026767657575719276701196623nat) by (nonlinear_arith)
        requires
            modulus() == 52435875175126190479447740508185965837690552500527637822603658699938581184513nat,
    ;
    assert(fpow(7, 18369577839608032277682084384787nat) == 46828989919870775322971766809448387472830860934238026767657575719276701196623nat);
    lemma_fpow_double(7, 18369577839608032277682084384787nat);
    assert(fmul(46828989919870775322971766809448387472830860934238026767657575719276701196623nat, 46828989919870775322971766809448387472830860934238026767657575719276701196623nat) == 18996739460515147076423455509054172907975932597312516419520789543006076186614nat) by (nonlinear_arith)
        requires
            modulus() == 52435875175126190479447740508185965837690552500527637822603658699938581184513nat,
    ;
    assert(fpow(7, 36739155679216064555364168769574nat) == 18996739460515147076423455509054172907975932597312516419520789543006076186614nat);
    lemma_fpow_double(7, 36739155679216064555364168769574nat);
    assert(fmul(18996739460515147076423455509054172907975932597312516419520789543006076186614nat, 18996739460515147076423455509054172907975932597312516419520789543006076186614nat) == 3203243121006812993972146889932023772278060392086933127388994120419915911890nat) by (nonlinear_arith)
        requires
            modulus() == 52435875175126190479447740508185965837690552500527637822603658699938581184513nat,
    ;
    assert(fpow(7, 73478311358432129110728337539148nat) == 3203243121006812993972146889932023772278060392086933127388994120419915911890nat);
    assert(fmul(7, 3203243121006812993972146889932023772278060392086933127388994120419915911890nat) == 22422701847047690957805028229524166405946422744608531891722958842939411383230nat) by (nonlinear_arith)
        requires
            modulus() == 52435875175126190479447740508185965837690552500527637822603658699938581184513nat,
    ;
    assert(fpow(7, 73478311358432129110728337539149nat) == 22422701847047690957805028229524166405946422744608531891722958842939411383230nat);
    lemma_fpow_double(7, 73478311358432129110728337539149nat);
    assert(fmul(22422701847047690957805028229524166405946422744608531891722958842939411383230nat, 22422701847047690957805028229524166405946422744608531891722958842939411383230nat) == 25299123223245289147113218717549820050761615500983126373233727440569813902068nat) by (nonlinear_arith)
        requires
            modulus() == 52435875175126190479447740508185965837690552500527637822603658699938581184513nat,
    ;
    assert(fpow(7, 146956622716864258221456675078298nat) == 25299123223245289147113218717549820050761615500983126373233727440569813902068nat);
    lemma_fpow_double(7, 146956622716864258221456675078298nat);
    assert(fmul(25299123223245289147113218717549820050761615500983126373233727440569813902068nat, 25299123223245289147113218717549820050761615500983126373233727440569813902068nat) == 50078837933021526323837054443545530808942362851202042386001403115210381897095nat) by (nonlinear_arith)
        requires
            modulus() == 52435875175126190479447740508185965837690552500527637822603658699938581184513nat,
    ;
    assert(fpow(7, 293913245433728516442913350156596nat) == 50078837933021526323837054443545530808942362851202042386001403115210381897095nat);
    lemma_fpow_double(7, 293913245433728516442913350156596nat);
    assert(fmul(50078837933021526323837054443545530808942362851202042386001403115210381897095nat, 50078837933021526323837054443545530808942362851202042386001403115210381897095nat) == 25275871616732425965107811431177325292032598799246468719055663389277864501179nat) by (nonlinear_arith)
        requires
            modulus() == 52435875175126190479447740508185965837690552500527637822603658699938581184513nat,
    ;
    assert(fpow(7, 587826490867457032885826700313192nat) == 25275871616732425965107811431177325292032598799246468719055663389277864501179nat);
}

proof fn lemma_generator_power_10()
    ensures
        fpow(7, 2407737306593104006700346164482836320nat) == 41140925551034058183149055783148645804836839947613851619060351353197018381850nat,
{
    lemma_generator_power_9();
    lemma_fpow_double(7, 587826490867457032885826700313192nat);
    assert(fmul(25275871616732425965107811431177325292032598799246468719055663389277864501179nat, 25275871616732425965107811431177325292032598799246468719055663389277864501179nat) == 40040879725751472037944479397827654051801199806704772980355163624315505239984nat) by (nonlinear_arith)
        requires
            modulus() == 52435875175126190479447740508185965837690552500527637822603658699938581184513nat,
    ;
    assert(fpow(7, 1175652981734914065771653400626384nat) == 40040879725751472037944479397827654051801199806704772980355163624315505239984nat);
    lemma_fpow_double(7, 1175652981734914065771653400626384nat);
    assert(fmul(40040879725751472037944479397827654051801199806704772980355163624315505239984nat, 40040879725751472037944479397827654051801199806704772980355163624315505239984nat) == 50193560938829652727147393659349161729404651975793687704069263038806139445400nat) by (nonlinear_arith)
        requires
            modulus() == 52435875175126190479447740508185965837690552500527637822603658699938581184513nat,
    ;
    assert(fpow(7, 2351305963469828131543306801252768nat) == 50193560938829652727147393659349161729404651975793687704069263038806139445400nat);
    assert(fmul(7, 50193560938829652727147393659349161729404651975793687704069263038806139445400nat) == 36739675521050426213345312566328337079689248827389986992862889072011489010722nat) by (nonlinear_arith)
        requires
            modulus() == 52435875175126190479447740508185965837690552500527637822603658699938581184513nat,
    ;
    assert(fpow(7, 2351305963469828131543306801252769nat) == 36739675521050426213345312566328337079689248827389986992862889072011489010722nat);
    lemma_fpow_double(7, 2351305963469828131543306801252769nat);
    assert(fmul(36739675521050426213345312566328337079689248827389986992862889072011489010722nat, 36739675521050426213345312566328337079689248827389986992862889072011489010722nat) == 892191106901846930120300344280502903800678200939570079205415183393203122686nat) by (nonlinear_arith)
        requires
            modulus() == 52435875175126190479447740508185965837690552500527637822603658699938581184513nat,
    ;
    assert(fpow(7, 4702611926939656263086613602505538nat) == 892191106901846930120300344280502903800678200939570079205415183393203122686nat);
    assert(fmul(7, 892191106901846930120300344280502903800678200939570079205415183393203122686nat) == 6245337748312928510842102409963520326604747406576990554437906283752421858802nat) by (nonlinear_arith)
        requires
            modulus() == 52435875175126190479447740508185965837690552500527637822603658699938581184513nat,
    ;
    assert(fpow(7, 4702611926939656263086613602505539nat) == 6245337748312928510842102409963520326604747406576990554437906283752421858802nat);
    lemma_fpow_double(7, 4702611926939656263086613602505539nat);
    assert(fmul(6245337748312928510842102409963520326604747406576990554437906283752421858802nat, 6245337748312928510842102409963520326604747406576990554437906283752421858802nat) == 22462890907893832408627681453374528479370761299441405328878168798110224952458nat) by (nonlinear_arith)
        requires
            modulus() == 52435875175126190479447740508185965837690552500527637822603658699938581184513nat,
    ;
    assert(fpow(7, 9405223853879312526173227205011078nat) == 22462890907893832408627681453374528479370761299441405328878168798110224952458nat);
    assert(fmul(7, 22462890907893832408627681453374528479370761299441405328878168798110224952458nat) == 52368486005004445901498289157249767680214224095034561656939864186894412298180nat) by (nonlinear_arith)
        requires
            modulus() == 52435875175126190479447740508185965837690552500527637822603658699938581184513nat,
    ;
    assert(fpow(7, 9405223853879312526173227205011079nat) == 52368486005004445901498289157249767680214224095034561656939864186894412298180nat);
    lemma_fpow_double(7, 9405223853879312526173227205011079nat);
    assert(fmul(52368486005004445901498289157249767680214224095034561656939864186894412298180nat, 52368486005004445901498289157249767680214224095034561656939864186894412298180nat) == 44364234066543875755465507402728328427094297462215489386064724593567120324733nat) by (nonlinear_arith)
        requires
            modulus() == 52435875175126190479447740508185965837690552500527637822603658699938581184513nat,
    ;
    assert(fpow(7, 18810447707758625052346454410022158nat) == 44364234066543875755465507402728328427094297462215489386064724593567120324733nat);
    lemma_fpow_double(7, 18810447707758625052346454410022158nat);
    assert(fmul(44364234066543875755465507402728328427094297462215489386064724593567120324733nat, 44364234066543875755465507402728328427094297462215489386064724593567120324733nat) == 36154141283696179178717501861301328156441424429222393536913389437535964608763nat) by (nonlinear_arith)
        requires
            modulus() == 52435875175126190479447740508185965837690552500527637822603658699938581184513nat,
    ;
    assert(fpow(7, 37620895415517250104692908820044316nat) == 36154141283696179178717501861301328156441424429222393536913389437535964608763nat);
    assert(fmul(7, 36154141283696179178717501861301328156441424429222393536913389437535964608763nat) == 43335488285368492333231550996365433744327761002446203467979091262997427523289nat) by (nonlinear_arith)
        requires
            modulus() == 52435875175126190479447740508185965837690552500527637822603658699938581184513nat,
    ;
    assert(fpow(7, 37620895415517250104692908820044317nat) == 43335488285368492333231550996365433744327761002446203467979091262997427523289nat);
    lemma_fpow_double(7, 37620895415517250104692908820044317nat);
    assert(fmul(43335488285368492333231550996365433744327761002446203467979091262997427523289nat, 43335488285368492333231550996365433744327761002446203467979091262997427523289nat) == 47558907717254980183694347050157955683802946223063397391989944639285286595318nat) by (nonlinear_arith)
        requires
            modulus() == 52435875175126190479447740508185965837690552500527637822603658699938581184513nat,
    ;
    assert(fpow(7, 75241790831034500209385817640088634nat) == 47558907717254980183694347050157955683802946223063397391989944639285286595318nat);
    assert(fmul(7, 47558907717254980183694347050157955683802946223063397391989944639285286595318nat) == 18297102970027718409173986301989894760477308558277954808307660275365519060148nat) by (nonlinear_arith)
        requires
            modulus() == 52435875175126190479447740508185965837690552500527637822603658699938581184513nat,
    ;
    assert(fpow(7, 75241790831034500209385817640088635nat) == 18297102970027718409173986301989894760477308558277954808307660275365519060148nat);
    lemma_fpow_double(7, 75241790831034500209385817640088635nat);
    assert(fmul(18297102970027718409173986301989894760477308558277954808307660275365519060148nat, 18297102970027718409173986301989894760477308558277954808307660275365519060148nat) == 16551347060367486694307856872633941826601203475303021109946213704736829675924nat) by (nonlinear_arith)
        requires
            modulus() == 52435875175126190479447740508185965837690552500527637822603658699938581184513nat,
    ;
    assert(fpow(7, 150483581662069000418771635280177270nat) == 16551347060367486694307856872633941826601203475303021109946213704736829675924nat);
    lemma_fpow_double(7, 150483581662069000418771635280177270nat);
    assert(fmul(16551347060367486694307856872633941826601203475303021109946213704736829675924nat, 16551347060367486694307856872633941826601203475303021109946213704736829675924nat) == 36580617503158513281670161957128857130056244997215112608402476723808630266959nat) by (nonlinear_arith)
        requires
            modulus() == 52435875175126190479447740508185965837690552500527637822603658699938581184513nat,
    ;
    assert(fpow(7, 300967163324138000837543270560354540nat) == 36580617503158513281670161957128857130056244997215112608402476723808630266959nat);
    lemma_fpow_double(7, 300967163324138000837543270560354540nat);
    assert(fmul(36580617503158513281670161957128857130056244997215112608402476723808630266959nat, 36580617503158513281670161957128857130056244997215112608402476723808630266959nat) == 38481307787753392522253001223883634391173231415394935813110930167728311917975nat) by (nonlinear_arith)
        requires
            modulus() == 52435875175126190479447740508185965837690552500527637822603658699938581184513nat,
    ;
    assert(fpow(7, 601934326648276001675086541120709080nat) == 38481307787753392522253001223883634391173231415394935813110930167728311917975nat);
    lemma_fpow_double(7, 601934326648276001675086541120709080nat);
    assert(fmul(38481307787753392522253001223883634391173231415394935813110930167728311917975nat, 38481307787753392522253001223883634391173231415394935813110930167728311917975nat) == 47244034338990704259138939993488174567834539101069576952382449054083768268074nat) by (nonlinear_arith)
        requires
            modulus() == 52435875175126190479447740508185965837690552500527637822603658699938581184513nat,
    ;
    assert(fpow(7, 1203868653296552003350173082241418160nat) == 47244034338990704259138939993488174567834539101069576952382449054083768268074nat);
    lemma_fpow_double(7, 1203868653296552003350173082241418160nat);
    assert(fmul(47244034338990704259138939993488174567834539101069576952382449054083768268074nat, 47244034338990704259138939993488174567834539101069576952382449054083768268074nat) == 41140925551034058183149055783148645804836839947613851619060351353197018381850nat) by (nonlinear_arith)
        requires
            modulus() == 52435875175126190479447740508185965837690552500527637822603658699938581184513nat,
    ;
    assert(fpow(7, 2407737306593104006700346164482836320nat) == 41140925551034058183149055783148645804836839947613851619060351353197018381850nat);
}

proof fn lemma_generator_power_11()
    ensures
        fpow(7, 9862092007805354011444617889721697567060nat) == 34032005521589243953551211807338074720430726273982663774537565802974194160483nat,
{
    lemma_generator_power_10();
    lemma_fpow_double(7, 2407737306593104006700346164482836320nat);
    assert(fmul(41140925551034058183149055783148645804836839947613851619060351353197018381850nat, 41140925551034058183149055783148645804836839947613851619060351353197018381850nat) == 8664973336800362195803623148547461319629968933861541187976448414297755878975nat) by (nonlinear_arith)
        requires
            modulus() == 52435875175126190479447740508185965837690552500527637822603658699938581184513nat,
    ;
    assert(fpow(7, 4815474613186208013400692328965672640nat) == 8664973336800362195803623148547461319629968933861541187976448414297755878975nat);
    lemma_fpow_double(7, 4815474613186208013400692328965672640nat);
    assert(fmul(8664973336800362195803623148547461319629968933861541187976448414297755878975nat, 8664973336800362195803623148547461319629968933861541187976448414297755878975nat) == 16154868315698689362488952082761953726183940424043183241619478905724394324651nat) by (nonlinear_arith)
        requires
            modulus() == 52435875175126190479447740508185965837690552500527637822603658699938581184513nat,
    ;
    assert(fpow(7, 9630949226372416026801384657931345280nat) == 16154868315698689362488952082761953726183940424043183241619478905724394324651nat);
    lemma_fpow_double(7, 9630949226372416026801384657931345280nat);
    assert(fmul(16154868315698689362488952082761953726183940424043183241619478905724394324651nat, 16154868315698689362488952082761953726183940424043183241619478905724394324651nat) == 33141738279433600080001485835528836757742020530204955298853280006581484896351nat) by (nonlinear_arith)
        requires
            modulus() == 52435875175126190479447740508185965837690552500527637822603658699938581184513nat,
    ;
    assert(fpow(7, 19261898452744832053602769315862690560nat) == 33141738279433600080001485835528836757742020530204955298853280006581484896351nat);
    lemma_fpow_double(7, 19261898452744832053602769315862690560nat);
    assert(fmul(33141738279433600080001485835528836757742020530204955298853280006581484896351nat, 33141738279433600080001485835528836757742020530204955298853280006581484896351nat) == 45897379086254908020573670783429589311133964019731559692936607246681301492273nat) by (nonlinear_arith)
        requires
            modulus() == 52435875175126190479447740508185965837690552500527637822603658699938581184513nat,
    ;
    assert(fpow(7, 38523796905489664107205538631725381120nat) == 45897379086254908020573670783429589311133964019731559692936607246681301492273nat);
    assert(fmul(7, 45897379086254908020573670783429589311133964019731559692936607246681301492273nat) == 6666402553027213267329252434891330151794433134955090914934298527137623338833nat) by (nonlinear_arith)
        requires
            modulus() == 52435875175126190479447740508185965837690552500527637822603658699938581184513nat,
    ;
    assert(fpow(7, 38523796905489664107205538631725381121nat) == 6666402553027213267329252434891330151794433134955090914934298527137623338833nat);
    lemma_fpow_double(7, 38523796905489664107205538631725381121nat);
    assert(fmul(6666402553027213267329252434891330151794433134955090914934298527137623338833nat, 6666402553027213267329252434891330151794433134955090914934298527137623338833nat) == 31857295956479207882514280800217138382369528144059694274551898867317044048735nat) by (nonlinear_arith)
        requires
            modulus() == 52435875175126190479447740508185965837690552500527637822603658699938581184513nat,
    ;
    assert(fpow(7, 77047593810979328214411077263450762242nat) == 31857295956479207882514280800217138382369528144059694274551898867317044048735nat);
    lemma_fpow_double(7, 77047593810979328214411077263450762242nat);
    assert(fmul(31857295956479207882514280800217138382369528144059694274551898867317044048735nat, 31857295956479207882514280800217138382369528144059694274551898867317044048735nat) == 7686717667261203550412707947651522828833203483332889781657358838919453186593nat) by (nonlinear_arith)
        requires
            modulus() == 52435875175126190479447740508185965837690552500527637822603658699938581184513nat,
    ;
    assert(fpow(7, 154095187621958656428822154526901524484nat) == 7686717667261203550412707947651522828833203483332889781657358838919453186593nat);
    assert(fmul(7, 7686717667261203550412707947651522828833203483332889781657358838919453186593nat) == 1371148495702234373441215125374693964141871882802590648997853172497591121638nat) by (nonlinear_arith)
        requires
            modulus() == 52435875175126190479447740508185965837690552500527637822603658699938581184513nat,
    ;
    assert(fpow(7, 154095187621958656428822154526901524485nat) == 1371148495702234373441215125374693964141871882802590648997853172497591121638nat);
    lemma_fpow_double(7, 154095187621958656428822154526901524485nat);
    assert(fmul(1371148495702234373441215125374693964141871882802590648997853172497591121638nat, 1371148495702234373441215125374693964141871882802590648997853172497591121638nat) == 33913643672662842510312388637023901464507392568598081420228447129657978330773nat) by (nonlinear_arith)
        requires
            modulus() == 52435875175126190479447740508185965837690552500527637822603658699938581184513nat,
    ;
    assert(fpow(7, 308190375243917312857644309053803048970nat) == 33913643672662842510312388637023901464507392568598081420228447129657978330773nat);
    lemma_fpow_double(7, 308190375243917312857644309053803048970nat);
    assert(fmul(33913643672662842510312388637023901464507392568598081420228447129657978330773nat, 33913643672662842510312388637023901464507392568598081420228447129657978330773nat) == 27917618146632443198664659492645875228454307850116968848222551487613457546048nat) by (nonlinear_arith)
        requires
            modulus() == 52435875175126190479447740508185965837690552500527637822603658699938581184513nat,
    ;
    assert(fpow(7, 616380750487834625715288618107606097940nat) == 27917618146632443198664659492645875228454307850116968848222551487613457546048nat);
    assert(fmul(7, 27917618146632443198664659492645875228454307850116968848222551487613457546048nat) == 38115701501048530952309394923963229086108497449235868469746884313478459268797nat) by (nonlinear_arith)
        requires
            modulus() == 52435875175126190479447740508185965837690552500527637822603658699938581184513nat,
    ;
    assert(fpow(7, 616380750487834625715288618107606097941nat) == 38115701501048530952309394923963229086108497449235868469746884313478459268797nat);
    lemma_fpow_double(7, 616380750487834625715288618107606097941nat);
    assert(fmul(38115701501048530952309394923963229086108497449235868469746884313478459268797nat, 38115701501048530952309394923963229086108497449235868469746884313478459268797nat) == 40232925649025291659408480353138316243525307884820971063270331056280495534119nat) by (nonlinear_arith)
        requires
            modulus() == 52435875175126190479447740508185965837690552500527637822603658699938581184513nat,
    ;
    assert(fpow(7, 1232761500975669251430577236215212195882nat) == 40232925649025291659408480353138316243525307884820971063270331056280495534119nat);
    lemma_fpow_double(7, 1232761500975669251430577236215212195882nat);
    assert(fmul(40232925649025291659408480353138316243525307884820971063270331056280495534119nat, 40232925649025291659408480353138316243525307884820971063270331056280495534119nat) == 48056181917030644503554963235681482960331659882972208164770537159563692476408nat) by (nonlinear_arith)
        requires
            modulus() == 52435875175126190479447740508185965837690552500527637822603658699938581184513nat,
    ;
    assert(fpow(7, 2465523001951338502861154472430424391764nat) == 48056181917030644503554963235681482960331659882972208164770537159563692476408nat);
    assert(fmul(7, 48056181917030644503554963235681482960331659882972208164770537159563692476408nat) == 21778022368457368648198299600654585696178304177639630217771807917314360227778nat) by (nonlinear_arith)
        requires
            modulus() == 52435875175126190479447740508185965837690552500527637822603658699938581184513nat,
    ;
    assert(fpow(7, 2465523001951338502861154472430424391765nat) == 21778022368457368648198299600654585696178304177639630217771807917314360227778nat);
    lemma_fpow_double(7, 2465523001951338502861154472430424391765nat);
    assert(fmul(21778022368457368648198299600654585696178304177639630217771807917314360227778nat, 21778022368457368648198299600654585696178304177639630217771807917314360227778nat) == 30989928783359158657226969844144457846082663341891768822553165907273738748991nat) by (nonlinear_arith)
        requires
            modulus() == 52435875175126190479447740508185965837690552500527637822603658699938581184513nat,
    ;
    assert(fpow(7, 4931046003902677005722308944860848783530nat) == 30989928783359158657226969844144457846082663341891768822553165907273738748991nat);
    lemma_fpow_double(7, 4931046003902677005722308944860848783530nat);
    assert(fmul(30989928783359158657226969844144457846082663341891768822553165907273738748991nat, 30989928783359158657226969844144457846082663341891768822553165907273738748991nat) == 34032005521589243953551211807338074720430726273982663774537565802974194160483nat) by (nonlinear_arith)
        requires
            modulus() == 52435875175126190479447740508185965837690552500527637822603658699938581184513nat,
    ;
    assert(fpow(7, 9862092007805354011444617889721697567060nat) == 34032005521589243953551211807338074720430726273982663774537565802974194160483nat);
}

proof fn lemma_generator_power_12()
    ensures
        fpow(7, 40395128863970730030877154876300073234681590nat) == 15706582960282018882760856691250972949868973461603787367011306876684012984898nat,
{
    lemma_generator_power_11();
    lemma_fpow_double(7, 9862092007805354011444617889721697567060nat);
    assert(fmul(34032005521589243953551211807338074720430726273982663774537565802974194160483nat, 34032005521589243953551211807338074720430726273982663774537565802974194160483nat) == 18843100418731475576638378155514034355736697006793004389653435199156983436479nat) by (nonlinear_arith)
        requires
            modulus() == 52435875175126190479447740508185965837690552500527637822603658699938581184513nat,
    ;
    assert(fpow(7, 19724184015610708022889235779443395134120nat) == 18843100418731475576638378155514034355736697006793004389653435199156983436479nat);
    assert(fmul(7, 18843100418731475576638378155514034355736697006793004389653435199156983436479nat) == 27029952580867948077573166072226308814775774046495755082366728994221721686327nat) by (nonlinear_arith)
        requires
            modulus() == 52435875175126190479447740508185965837690552500527637822603658699938581184513nat,
    ;
    assert(fpow(7, 19724184015610708022889235779443395134121nat) == 27029952580867948077573166072226308814775774046495755082366728994221721686327nat);
    lemma_fpow_double(7, 19724184015610708022889235779443395134121nat);
    assert(fmul(27029952580867948077573166072226308814775774046495755082366728994221721686327nat, 27029952580867948077573166072226308814775774046495755082366728994221721686327nat) == 24056870244826170983522519261974000438213089922630292442333179482452618674199nat) by (nonlinear_arith)
        requires
            modulus() == 52435875175126190479447740508185965837690552500527637822603658699938581184513nat,
    ;
    assert(fpow(7, 39448368031221416045778471558886790268242nat) == 24056870244826170983522519261974000438213089922630292442333179482452618674199nat);
    assert(fmul(7, 24056870244826170983522519261974000438213089922630292442333179482452618674199nat) == 11090466188404625446314413309260105554419971956829133628521280277352587165854nat) by (nonlinear_arith)
        requires
            modulus() == 52435875175126190479447740508185965837690552500527637822603658699938581184513nat,
    ;
    assert(fpow(7, 39448368031221416045778471558886790268243nat) == 11090466188404625446314413309260105554419971956829133628521280277352587165854nat);
    lemma_fpow_double(7, 39448368031221416045778471558886790268243nat);
    assert(fmul(11090466188404625446314413309260105554419971956829133628521280277352587165854nat, 11090466188404625446314413309260105554419971956829133628521280277352587165854nat) == 27433709137843918922048250139616698433378589090948789965923406942219610624587nat) by (nonlinear_arith)
        requires
            modulus() == 52435875175126190479447740508185965837690552500527637822603658699938581184513nat,
    ;
    assert(fpow(7, 78896736062442832091556943117773580536486nat) == 27433709137843918922048250139616698433378589090948789965923406942219610624587nat);
    assert(fmul(7, 27433709137843918922048250139616698433378589090948789965923406942219610624587nat) == 34728338439528861015994529452758991520578466135058616293652872495721530818570nat) by (nonlinear_arith)
        requires
            modulus() == 52435875175126190479447740508185965837690552500527637822603658699938581184513nat,
    ;
    assert(fpow(7, 78896736062442832091556943117773580536487nat) == 34728338439528861015994529452758991520578466135058616293652872495721530818570nat);
    lemma_fpow_double(7, 78896736062442832091556943117773580536487nat);
    assert(fmul(34728338439528861015994529452758991520578466135058616293652872495721530818570nat, 34728338439528861015994529452758991520578466135058616293652872495721530818570nat) == 15200334974922747894890033466671805407067263259926356640465325132353582796834nat) by (nonlinear_arith)
        requires
            modulus() == 52435875175126190479447740508185965837690552500527637822603658699938581184513nat,
    ;
    assert(fpow(7, 157793472124885664183113886235547161072974nat) == 15200334974922747894890033466671805407067263259926356640465325132353582796834nat);
    lemma_fpow_double(7, 157793472124885664183113886235547161072974nat);
    assert(fmul(15200334974922747894890033466671805407067263259926356640465325132353582796834nat, 15200334974922747894890033466671805407067263259926356640465325132353582796834nat) == 39339506492934229867710741337691335799231048142280555584159997372750340489673nat) by (nonlinear_arith)
        requires
            modulus() == 52435875175126190479447740508185965837690552500527637822603658699938581184513nat,
    ;
    assert(fpow(7, 315586944249771328366227772471094322145948nat) == 39339506492934229867710741337691335799231048142280555584159997372750340489673nat);
    assert(fmul(7, 39339506492934229867710741337691335799231048142280555584159997372750340489673nat) == 13197169574908656676736486822909521406164574493325699976101688109559477505146nat) by (nonlinear_arith)
        requires
            modulus() == 52435875175126190479447740508185965837690552500527637822603658699938581184513nat,
    ;
    assert(fpow(7, 315586944249771328366227772471094322145949nat) == 13197169574908656676736486822909521406164574493325699976101688109559477505146nat);
    lemma_fpow_double(7, 315586944249771328366227772471094322145949nat);
    assert(fmul(13197169574908656676736486822909521406164574493325699976101688109559477505146nat, 13197169574908656676736486822909521406164574493325699976101688109559477505146nat) == 40175534478069595836938407211982074255716633114937082273475776957453887968136nat) by (nonlinear_arith)
        requires
            modulus() == 52435875175126190479447740508185965837690552500527637822603658699938581184513nat,
    ;
    assert(fpow(7, 631173888499542656732455544942188644291898nat) == 40175534478069595836938407211982074255716633114937082273475776957453887968136nat);
    assert(fmul(7, 40175534478069595836938407211982074255716633114937082273475776957453887968136nat) == 19049365470856218461330147942944690601563669301921386801312145202484309854387nat) by (nonlinear_arith)
        requires
            modulus() == 52435875175126190479447740508185965837690552500527637822603658699938581184513nat,
    ;
    assert(fpow(7, 631173888499542656732455544942188644291899nat) == 19049365470856218461330147942944690601563669301921386801312145202484309854387nat);
    lemma_fpow_double(7, 631173888499542656732455544942188644291899nat);
    assert(fmul(19049365470856218461330147942944690601563669301921386801312145202484309854387nat, 19049365470856218461330147942944690601563669301921386801312145202484309854387nat) == 40911766211784567164001481855277067047717096882500226956304113527063769208868nat) by (nonlinear_arith)
        requires
            modulus() == 52435875175126190479447740508185965837690552500527637822603658699938581184513nat,
    ;
    assert(fpow(7, 1262347776999085313464911089884377288583798nat) == 40911766211784567164001481855277067047717096882500226956304113527063769208868nat);
    assert(fmul(7, 40911766211784567164001481855277067047717096882500226956304113527063769208868nat) == 24202987606861017750771670446009640145566915674863399581110501189753478539511nat) by (nonlinear_arith)
        requires
            modulus() == 52435875175126190479447740508185965837690552500527637822603658699938581184513nat,
    ;
    assert(fpow(7, 1262347776999085313464911089884377288583799nat) == 24202987606861017750771670446009640145566915674863399581110501189753478539511nat);
    lemma_fpow_double(7, 1262347776999085313464911089884377288583799nat);
    assert(fmul(24202987606861017750771670446009640145566915674863399581110501189753478539511nat, 24202987606861017750771670446009640145566915674863399581110501189753478539511nat) == 52249874974416744234333613254178577474661151677680342675027786784874148663376nat) by (nonlinear_arith)
        requires
            modulus() == 52435875175126190479447740508185965837690552500527637822603658699938581184513nat,
    ;
    assert(fpow(7, 2524695553998170626929822179768754577167598nat) == 52249874974416744234333613254178577474661151677680342675027786784874148663376nat);
    assert(fmul(7, 52249874974416744234333613254178577474661151677680342675027786784874148663376nat) == 51133873770160066763648849730134247296484746740596571789572555294487553536554nat) by (nonlinear_arith)
        requires
            modulus() == 52435875175126190479447740508185965837690552500527637822603658699938581184513nat,
    ;
    assert(fpow(7, 2524695553998170626929822179768754577167599nat) == 51133873770160066763648849730134247296484746740596571789572555294487553536554nat);
    lemma_fpow_double(7, 2524695553998170626929822179768754577167599nat);
    assert(fmul(51133873770160066763648849730134247296484746740596571789572555294487553536554nat, 51133873770160066763648849730134247296484746740596571789572555294487553536554nat) == 10655241698392546056134739068920679681184492800908310873052715336705673748394nat) by (nonlinear_arith)
        requires
            modulus() == 52435875175126190479447740508185965837690552500527637822603658699938581184513nat,
    ;
    assert(fpow(7, 5049391107996341253859644359537509154335198nat) == 10655241698392546056134739068920679681184492800908310873052715336705673748394nat);
    lemma_fpow_double(7, 5049391107996341253859644359537509154335198nat);
    assert(fmul(10655241698392546056134739068920679681184492800908310873052715336705673748394nat, 10655241698392546056134739068920679681184492800908310873052715336705673748394nat) == 21389147949859988529034517951798068073567064681021484328254686465926882452402nat) by (nonlinear_arith)
        requires
            modulus() == 52435875175126190479447740508185965837690552500527637822603658699938581184513nat,
    ;
    assert(fpow(7, 10098782215992682507719288719075018308670396nat) == 21389147949859988529034517951798068073567064681021484328254686465926882452402nat);
    assert(fmul(7, 21389147949859988529034517951798068073567064681021484328254686465926882452402nat) == 44852285298767538744346144646214544839588347766095114652575487861611014797788nat) by (nonlinear_arith)
        requires
            modulus() == 52435875175126190479447740508185965837690552500527637822603658699938581184513nat,
    ;
    assert(fpow(7, 10098782215992682507719288719075018308670397nat) == 44852285298767538744346144646214544839588347766095114652575487861611014797788nat);
    lemma_fpow_double(7, 10098782215992682507719288719075018308670397nat);
    assert(fmul(44852285298767538744346144646214544839588347766095114652575487861611014797788nat, 44852285298767538744346144646214544839588347766095114652575487861611014797788nat) == 9923931480830567824853864749230261526889586185025689007784253517775255384069nat) by (nonlinear_arith)
        requires
            modulus() == 52435875175126190479447740508185965837690552500527637822603658699938581184513nat,
    ;
    assert(fpow(7, 20197564431985365015438577438150036617340794nat) == 9923931480830567824853864749230261526889586185025689007784253517775255384069nat);
    assert(fmul(7, 9923931480830567824853864749230261526889586185025689007784253517775255384069nat) == 17031645190687784294529312736425864850536550794652185231886115924488206503970nat) by (nonlinear_arith)
        requires
            modulus() == 52435875175126190479447740508185965837690552500527637822603658699938581184513nat,
    ;
    assert(fpow(7, 20197564431985365015438577438150036617340795nat) == 17031645190687784294529312736425864850536550794652185231886115924488206503970nat);
    lemma_fpow_double(7, 20197564431985365015438577438150036617340795nat);
    assert(fmul(17031645190687784294529312736425864850536550794652185231886115924488206503970nat, 17031645190687784294529312736425864850536550794652185231886115924488206503970nat) == 15706582960282018882760856691250972949868973461603787367011306876684012984898nat) by (nonlinear_arith)
        requires
            modulus() == 52435875175126190479447740508185965837690552500527637822603658699938581184513nat,
    ;
    assert(fpow(7, 40395128863970730030877154876300073234681590nat) == 15706582960282018882760856691250972949868973461603787367011306876684012984898nat);
}

proof fn lemma_generator_power_13()
    ensures
        fpow(7, 165458447826824110206472826373325099969255794944nat) == 13263852207060915158847656871423838870474781633145560681147392803409601831794nat,
{
    lemma_generator_power_12();
    lemma_fpow_double(7, 40395128863970730030877154876300073234681590nat);
    assert(fmul(15706582960282018882760856691250972949868973461603787367011306876684012984898nat, 15706582960282018882760856691250972949868973461603787367011306876684012984898nat) == 17978006664629754080732981431670486670988515012295449865482911390106086362707nat) by (nonlinear_arith)
        requires
            modulus() == 52435875175126190479447740508185965837690552500527637822603658699938581184513nat,
    ;
    assert(fpow(7, 80790257727941460061754309752600146469363180nat) == 17978006664629754080732981431670486670988515012295449865482911390106086362707nat);
    assert(fmul(7, 17978006664629754080732981431670486670988515012295449865482911390106086362707nat) == 20974296302155897606235389005321475021538500085012873413173062330865442169923nat) by (nonlinear_arith)
        requires
            modulus() == 52435875175126190479447740508185965837690552500527637822603658699938581184513nat,
    ;
    assert(fpow(7, 80790257727941460061754309752600146469363181nat) == 20974296302155897606235389005321475021538500085012873413173062330865442169923nat);
    lemma_fpow_double(7, 80790257727941460061754309752600146469363181nat);
    assert(fmul(20974296302155897606235389005321475021538500085012873413173062330865442169923nat, 20974296302155897606235389005321475021538500085012873413173062330865442169923nat) == 14144776024585620677430423064124915514613108285936437970715572548592045470351nat) by (nonlinear_arith)
        requires
            modulus() == 52435875175126190479447740508185965837690552500527637822603658699938581184513nat,
    ;
    assert(fpow(7, 161580515455882920123508619505200292938726362nat) == 14144776024585620677430423064124915514613108285936437970715572548592045470351nat);
    lemma_fpow_double(7, 161580515455882920123508619505200292938726362nat);
    assert(fmul(14144776024585620677430423064124915514613108285936437970715572548592045470351nat, 14144776024585620677430423064124915514613108285936437970715572548592045470351nat) == 18037653401220724315967422734459338926940547296316296077924988742661160742968nat) by (nonlinear_arith)
        requires
            modulus() == 52435875175126190479447740508185965837690552500527637822603658699938581184513nat,
    ;
    assert(fpow(7, 323161030911765840247017239010400585877452724nat) == 18037653401220724315967422734459338926940547296316296077924988742661160742968nat);
    lemma_fpow_double(7, 323161030911765840247017239010400585877452724nat);
    assert(fmul(18037653401220724315967422734459338926940547296316296077924988742661160742968nat, 18037653401220724315967422734459338926940547296316296077924988742661160742968nat) == 39895946541944950873462034756663464140368640473990631100910754409980791272716nat) by (nonlinear_arith)
        requires
            modulus() == 52435875175126190479447740508185965837690552500527637822603658699938581184513nat,
    ;
    assert(fpow(7, 646322061823531680494034478020801171754905448nat) == 39895946541944950873462034756663464140368640473990631100910754409980791272716nat);
    assert(fmul(7, 39895946541944950873462034756663464140368640473990631100910754409980791272716nat) == 17092249917983703716995540755714419794127720815296228593356987370172632986447nat) by (nonlinear_arith)
        requires
            modulus() == 52435875175126190479447740508185965837690552500527637822603658699938581184513nat,
    ;
    assert(fpow(7, 646322061823531680494034478020801171754905449nat) == 17092249917983703716995540755714419794127720815296228593356987370172632986447nat);
    lemma_fpow_double(7, 646322061823531680494034478020801171754905449nat);
    assert(fmul(17092249917983703716995540755714419794127720815296228593356987370172632986447nat, 17092249917983703716995540755714419794127720815296228593356987370172632986447nat) == 51574106065580790548125755468898253116846972109562117611201280751990962466264nat) by (nonlinear_arith)
        requires
            modulus() == 52435875175126190479447740508185965837690552500527637822603658699938581184513nat,
    ;
    assert(fpow(7, 1292644123647063360988068956041602343509810898nat) == 51574106065580790548125755468898253116846972109562117611201280751990962466264nat);
    lemma_fpow_double(7, 1292644123647063360988068956041602343509810898nat);
    assert(fmul(51574106065580790548125755468898253116846972109562117611201280751990962466264nat, 51574106065580790548125755468898253116846972109562117611201280751990962466264nat) == 51085352287425770091026610913705744602335366848435545096609145789671802491262nat) by (nonlinear_arith)
        requires
            modulus() == 52435875175126190479447740508185965837690552500527637822603658699938581184513nat,
    ;
    assert(fpow(7, 2585288247294126721976137912083204687019621796nat) == 51085352287425770091026610913705744602335366848435545096609145789671802491262nat);
    lemma_fpow_double(7, 2585288247294126721976137912083204687019621796nat);
    assert(fmul(51085352287425770091026610913705744602335366848435545096609145789671802491262nat, 51085352287425770091026610913705744602335366848435545096609145789671802491262nat) == 6210086315688444137981873403238961674389818416097901607478871390694124562031nat) by (nonlinear_arith)
        requires
            modulus() == 52435875175126190479447740508185965837690552500527637822603658699938581184513nat,
    ;
    assert(fpow(7, 5170576494588253443952275824166409374039243592nat) == 6210086315688444137981873403238961674389818416097901607478871390694124562031nat);
    lemma_fpow_double(7, 5170576494588253443952275824166409374039243592nat);
    assert(fmul(6210086315688444137981873403238961674389818416097901607478871390694124562031nat, 6210086315688444137981873403238961674389818416097901607478871390694124562031nat) == 7277079948485887386689940974511613936714952664303728680670231621864495526842nat) by (nonlinear_arith)
        requires
            modulus() == 52435875175126190479447740508185965837690552500527637822603658699938581184513nat,
    ;
    assert(fpow(7, 10341152989176506887904551648332818748078487184nat) == 7277079948485887386689940974511613936714952664303728680670231621864495526842nat);
    lemma_fpow_double(7, 10341152989176506887904551648332818748078487184nat);
    assert(fmul(7277079948485887386689940974511613936714952664303728680670231621864495526842nat, 7277079948485887386689940974511613936714952664303728680670231621864495526842nat) == 30932627140072104722580693708995081735056494664331086417833922491968555134840nat) by (nonlinear_arith)
        requires
            modulus() == 52435875175126190479447740508185965837690552500527637822603658699938581184513nat,
    ;
    assert(fpow(7, 20682305978353013775809103296665637496156974368nat) == 30932627140072104722580693708995081735056494664331086417833922491968555134840nat);
    lemma_fpow_double(7, 20682305978353013775809103296665637496156974368nat);
    assert(fmul(30932627140072104722580693708995081735056494664331086417833922491968555134840nat, 30932627140072104722580693708995081735056494664331086417833922491968555134840nat) == 20405372144233404303069218904579989655160810999593845137460024578571392214326nat) by (nonlinear_arith)
        requires
            modulus() == 52435875175126190479447740508185965837690552500527637822603658699938581184513nat,
    ;
    assert(fpow(7, 41364611956706027551618206593331274992313948736nat) == 20405372144233404303069218904579989655160810999593845137460024578571392214326nat);
    lemma_fpow_double(7, 41364611956706027551618206593331274992313948736nat);
    assert(fmul(20405372144233404303069218904579989655160810999593845137460024578571392214326nat, 20405372144233404303069218904579989655160810999593845137460024578571392214326nat) == 47163476540804381083505368701468771881957083335813271263922492492553867016915nat) by (nonlinear_arith)
        requires
            modulus() == 52435875175126190479447740508185965837690552500527637822603658699938581184513nat,
    ;
    assert(fpow(7, 82729223913412055103236413186662549984627897472nat) == 47163476540804381083505368701468771881957083335813271263922492492553867016915nat);
    lemma_fpow_double(7, 82729223913412055103236413186662549984627897472nat);
    assert(fmul(47163476540804381083505368701468771881957083335813271263922492492553867016915nat, 47163476540804381083505368701468771881957083335813271263922492492553867016915nat) == 13263852207060915158847656871423838870474781633145560681147392803409601831794nat) by (nonlinear_arith)
        requires
            modulus() == 52435875175126190479447740508185965837690552500527637822603658699938581184513nat,
    ;
    assert(fpow(7, 165458447826824110206472826373325099969255794944nat) == 13263852207060915158847656871423838870474781633145560681147392803409601831794nat);
}

proof fn lemma_generator_power_14()
    ensures
        fpow(7, 677717802298671555405712696825139609474071736093695nat) == 6851476658526854076214872777170615889857437907819697324633771952909006352551nat,
{
    lemma_generator_power_13();
    lemma_fpow_double(7, 165458447826824110206472826373325099969255794944nat);
    assert(fmul(13263852207060915158847656871423838870474781633145560681147392803409601831794nat, 13263852207060915158847656871423838870474781633145560681147392803409601831794nat) == 24028351025198515473383172173362665400020049188077656279633179781274071004498nat) by (nonlinear_arith)
        requires
            modulus() == 52435875175126190479447740508185965837690552500527637822603658699938581184513nat,
    ;
    assert(fpow(7, 330916895653648220412945652746650199938511589888nat) == 24028351025198515473383172173362665400020049188077656279633179781274071004498nat);
    assert(fmul(7, 24028351025198515473383172173362665400020049188077656279633179781274071004498nat) == 10890831651011036875338983688980760287068686814960680489621282369102753477947nat) by (nonlinear_arith)
        requires
            modulus() == 52435875175126190479447740508185965837690552500527637822603658699938581184513nat,
    ;
    assert(fpow(7, 330916895653648220412945652746650199938511589889nat) == 10890831651011036875338983688980760287068686814960680489621282369102753477947nat);
    lemma_fpow_double(7, 330916895653648220412945652746650199938511589889nat);
    assert(fmul(10890831651011036875338983688980760287068686814960680489621282369102753477947nat, 10890831651011036875338983688980760287068686814960680489621282369102753477947nat) == 45291391690054139224217119448804299865867130408038107664617291782899197523146nat) by (nonlinear_arith)
        requires
            modulus() == 52435875175126190479447740508185965837690552500527637822603658699938581184513nat,
    ;
    assert(fpow(7, 661833791307296440825891305493300399877023179778nat) == 45291391690054139224217119448804299865867130408038107664617291782899197523146nat);
    lemma_fpow_double(7, 661833791307296440825891305493300399877023179778nat);
    assert(fmul(45291391690054139224217119448804299865867130408038107664617291782899197523146nat, 45291391690054139224217119448804299865867130408038107664617291782899197523146nat) == 49610254786080597004937303067015075348314978016269953165234703305889908673932nat) by (nonlinear_arith)
        requires
            modulus() == 52435875175126190479447740508185965837690552500527637822603658699938581184513nat,
    ;
    assert(fpow(7, 1323667582614592881651782610986600799754046359556nat) == 49610254786080597004937303067015075348314978016269953165234703305889908673932nat);
    assert(fmul(7, 49610254786080597004937303067015075348314978016269953165234703305889908673932nat) == 32656532451807036157874678419989732412061531110723845221020970941597873610446nat) by (nonlinear_arith)
        requires
            modulus() == 52435875175126190479447740508185965837690552500527637822603658699938581184513nat,
    ;
    assert(fpow(7, 1323667582614592881651782610986600799754046359557nat) == 32656532451807036157874678419989732412061531110723845221020970941597873610446nat);
    lemma_fpow_double(7, 1323667582614592881651782610986600799754046359557nat);
    assert(fmul(32656532451807036157874678419989732412061531110723845221020970941597873610446nat, 32656532451807036157874678419989732412061531110723845221020970941597873610446nat) == 34074310212035982277760834957293122389132579520040956672741029118459092147588nat) by (nonlinear_arith)
        requires
            modulus() == 52435875175126190479447740508185965837690552500527637822603658699938581184513nat,
    ;
    assert(fpow(7, 2647335165229185763303565221973201599508092719114nat) == 34074310212035982277760834957293122389132579520040956672741029118459092147588nat);
    assert(fmul(7, 34074310212035982277760834957293122389132579520040956672741029118459092147588nat) == 28776670783747114026534882668307993373165846638176145418772569029459320295064nat) by (nonlinear_arith)
        requires
            modulus() == 52435875175126190479447740508185965837690552500527637822603658699938581184513nat,
    ;
    assert(fpow(7, 2647335165229185763303565221973201599508092719115nat) == 28776670783747114026534882668307993373165846638176145418772569029459320295064nat);
    lemma_fpow_double(7, 2647335165229185763303565221973201599508092719115nat);
    assert(fmul(28776670783747114026534882668307993373165846638176145418772569029459320295064nat, 28776670783747114026534882668307993373165846638176145418772569029459320295064nat) == 38567553428934512695426869889388674983957317176462121285275997235948967813032nat) by (nonlinear_arith)
        requires
            modulus() == 52435875175126190479447740508185965837690552500527637822603658699938581184513nat,
    ;
    assert(fpow(7, 5294670330458371526607130443946403199016185438230nat) == 38567553428934512695426869889388674983957317176462121285275997235948967813032nat);
    assert(fmul(7, 38567553428934512695426869889388674983957317176462121285275997235948967813032nat) == 7793498126910636470749386684790895699248457732596659883913687151949868768659nat) by (nonlinear_arith)
        requires
            modulus() == 52435875175126190479447740508185965837690552500527637822603658699938581184513nat,
    ;
    assert(fpow(7, 5294670330458371526607130443946403199016185438231nat) == 7793498126910636470749386684790895699248457732596659883913687151949868768659nat);
    lemma_fpow_double(7, 5294670330458371526607130443946403199016185438231nat);
    assert(fmul(7793498126910636470749386684790895699248457732596659883913687151949868768659nat, 7793498126910636470749386684790895699248457732596659883913687151949868768659nat) == 4298302284159980605580205007771446467342497386906492011834602638781893336717nat) by (nonlinear_arith)
        requires
            modulus() == 52435875175126190479447740508185965837690552500527637822603658699938581184513nat,
    ;
    assert(fpow(7, 10589340660916743053214260887892806398032370876462nat) == 4298302284159980605580205007771446467342497386906492011834602638781893336717nat);
    assert(fmul(7, 4298302284159980605580205007771446467342497386906492011834602638781893336717nat) == 30088115989119864239061435054400125271397481708345444082842218471473253357019nat) by (nonlinear_arith)
        requires
            modulus() == 52435875175126190479447740508185965837690552500527637822603658699938581184513nat,
    ;
    assert(fpow(7, 10589340660916743053214260887892806398032370876463nat) == 30088115989119864239061435054400125271397481708345444082842218471473253357019nat);
    lemma_fpow_double(7, 10589340660916743053214260887892806398032370876463nat);
    assert(fmul(30088115989119864239061435054400125271397481708345444082842218471473253357019nat, 30088115989119864239061435054400125271397481708345444082842218471473253357019nat) == 50826900956889930451674857299015597996000464275969764485554921061378266494412nat) by (nonlinear_arith)
        requires
            modulus() == 52435875175126190479447740508185965837690552500527637822603658699938581184513nat,
    ;
    assert(fpow(7, 21178681321833486106428521775785612796064741752926nat) == 50826900956889930451674857299015597996000464275969764485554921061378266494412nat);
    assert(fmul(7, 50826900956889930451674857299015597996000464275969764485554921061378266494412nat) == 41173055647472370285037558043993390945859934928622524463262495230016378353806nat) by (nonlinear_arith)
        requires
            modulus() == 52435875175126190479447740508185965837690552500527637822603658699938581184513nat,
    ;
    assert(fpow(7, 21178681321833486106428521775785612796064741752927nat) == 41173055647472370285037558043993390945859934928622524463262495230016378353806nat);
    lemma_fpow_double(7, 21178681321833486106428521775785612796064741752927nat);
    assert(fmul(41173055647472370285037558043993390945859934928622524463262495230016378353806nat, 41173055647472370285037558043993390945859934928622524463262495230016378353806nat) == 44716298646063602496339885463682022473362993968986420790905125761032383673502nat) by (nonlinear_arith)
        requires
            modulus() == 52435875175126190479447740508185965837690552500527637822603658699938581184513nat,
    ;
    assert(fpow(7, 42357362643666972212857043551571225592129483505854nat) == 44716298646063602496339885463682022473362993968986420790905125761032383673502nat);
    assert(fmul(7, 44716298646063602496339885463682022473362993968986420790905125761032383673502nat) == 50834714646814265077140495704844328125088195280266756423317586827533779791949nat) by (nonlinear_arith)
        requires
            modulus() == 52435875175126190479447740508185965837690552500527637822603658699938581184513nat,
    ;
    assert(fpow(7, 42357362643666972212857043551571225592129483505855nat) == 50834714646814265077140495704844328125088195280266756423317586827533779791949nat);
    lemma_fpow_double(7, 42357362643666972212857043551571225592129483505855nat);
    assert(fmul(50834714646814265077140495704844328125088195280266756423317586827533779791949nat, 50834714646814265077140495704844328125088195280266756423317586827533779791949nat) == 16472952546076505047603097018833594535395318426872348739529609327609553755430nat) by (nonlinear_arith)
        requires
            modulus() == 52435875175126190479447740508185965837690552500527637822603658699938581184513nat,
    ;
    assert(fpow(7, 84714725287333944425714087103142451184258967011710nat) == 16472952546076505047603097018833594535395318426872348739529609327609553755430nat);
    assert(fmul(7, 16472952546076505047603097018833594535395318426872348739529609327609553755430nat) == 10438917472283154374326198115463230072386123987051165531499947893389713918984nat) by (nonlinear_arith)
        requires
            modulus() == 52435875175126190479447740508185965837690552500527637822603658699938581184513nat,
    ;
    assert(fpow(7, 84714725287333944425714087103142451184258967011711nat) == 10438917472283154374326198115463230072386123987051165531499947893389713918984nat);
    lemma_fpow_double(7, 84714725287333944425714087103142451184258967011711nat);
    assert(fmul(10438917472283154374326198115463230072386123987051165531499947893389713918984nat, 10438917472283154374326198115463230072386123987051165531499947893389713918984nat) == 30698193553236494888577917738521900854131599325414124793995874125637661408281nat) by (nonlinear_arith)
        requires
            modulus() == 52435875175126190479447740508185965837690552500527637822603658699938581184513nat,
    ;
    assert(fpow(7, 169429450574667888851428174206284902368517934023422nat) == 30698193553236494888577917738521900854131599325414124793995874125637661408281nat);
    assert(fmul(7, 30698193553236494888577917738521900854131599325414124793995874125637661408281nat) == 5143854172150702302254462136909442628158985275788322267556484079709305119915nat) by (nonlinear_arith)
        requires
            modulus() == 52435875175126190479447740508185965837690552500527637822603658699938581184513nat,
    ;
    assert(fpow(7, 169429450574667888851428174206284902368517934023423nat) == 5143854172150702302254462136909442628158985275788322267556484079709305119915nat);
    lemma_fpow_double(7, 169429450574667888851428174206284902368517934023423nat);
    assert(fmul(5143854172150702302254462136909442628158985275788322267556484079709305119915nat, 5143854172150702302254462136909442628158985275788322267556484079709305119915nat) == 11750931413315036098026407419748497205681263501833182377890933153631211583201nat) by (nonlinear_arith)
        requires
            modulus() == 52435875175126190479447740508185965837690552500527637822603658699938581184513nat,
    ;
    assert(fpow(7, 338858901149335777702856348412569804737035868046846nat) == 11750931413315036098026407419748497205681263501833182377890933153631211583201nat);
    assert(fmul(7, 11750931413315036098026407419748497205681263501833182377890933153631211583201nat) == 29820644718079062206737111430053514602078292012304638822632873375479899897894nat) by (nonlinear_arith)
        requires
            modulus() == 52435875175126190479447740508185965837690552500527637822603658699938581184513nat,
    ;
    assert(fpow(7, 338858901149335777702856348412569804737035868046847nat) == 29820644718079062206737111430053514602078292012304638822632873375479899897894nat);
    lemma_fpow_double(7, 338858901149335777702856348412569804737035868046847nat);
    assert(fmul(29820644718079062206737111430053514602078292012304638822632873375479899897894nat, 29820644718079062206737111430053514602078292012304638822632873375479899897894nat) == 38432978933451115210493367902585777868330028630065412348236009350371701753588nat) by (nonlinear_arith)
        requires
            modulus() == 52435875175126190479447740508185965837690552500527637822603658699938581184513nat,
    ;
    assert(fpow(7, 677717802298671555405712696825139609474071736093694nat) == 38432978933451115210493367902585777868330028630065412348236009350371701753588nat);
    assert(fmul(7, 38432978933451115210493367902585777868330028630065412348236009350371701753588nat) == 6851476658526854076214872777170615889857437907819697324633771952909006352551nat) by (nonlinear_arith)
        requires
            modulus() == 52435875175126190479447740508185965837690552500527637822603658699938581184513nat,
    ;
    assert(fpow(7, 677717802298671555405712696825139609474071736093695nat) == 6851476658526854076214872777170615889857437907819697324633771952909006352551nat);
}

proof fn lemma_generator_power_15()
    ensures
        fpow(7, 2775932118215358690941799206195771840405797831039778710nat) == 52052614916732026438494395807962988545382734338042726186762901359303970799051nat,
{
    lemma_generator_power_14();
    lemma_fpow_double(7, 677717802298671555405712696825139609474071736093695nat);
    assert(fmul(6851476658526854076214872777170615889857437907819697324633771952909006352551nat, 6851476658526854076214872777170615889857437907819697324633771952909006352551nat) == 17087986403085198517891429617894429502331037264232337676328465537335309038075nat) by (nonlinear_arith)
        requires
            modulus() == 52435875175126190479447740508185965837690552500527637822603658699938581184513nat,
    ;
    assert(fpow(7, 1355435604597343110811425393650279218948143472187390nat) == 17087986403085198517891429617894429502331037264232337676328465537335309038075nat);
    assert(fmul(7, 17087986403085198517891429617894429502331037264232337676328465537335309038075nat) == 14744154471344008666344526308889074840936155848571088089091941361470000897499nat) by (nonlinear_arith)
        requires
            modulus() == 52435875175126190479447740508185965837690552500527637822603658699938581184513nat,
    ;
    assert(fpow(7, 1355435604597343110811425393650279218948143472187391nat) == 14744154471344008666344526308889074840936155848571088089091941361470000897499nat);
    lemma_fpow_double(7, 1355435604597343110811425393650279218948143472187391nat);
    assert(fmul(14744154471344008666344526308889074840936155848571088089091941361470000897499nat, 14744154471344008666344526308889074840936155848571088089091941361470000897499nat) == 17161848458742943741404615338695249134080082499276069814166591688159330042092nat) by (nonlinear_arith)
        requires
            modulus() == 52435875175126190479447740508185965837690552500527637822603658699938581184513nat,
    ;
    assert(fpow(7, 2710871209194686221622850787300558437896286944374782nat) == 17161848458742943741404615338695249134080082499276069814166591688159330042092nat);
    assert(fmul(7, 17161848458742943741404615338695249134080082499276069814166591688159330042092nat) == 15261188860948225230936826354494812263179472493877213053958824417238147925618nat) by (nonlinear_arith)
        requires
            modulus() == 52435875175126190479447740508185965837690552500527637822603658699938581184513nat,
    ;
    assert(fpow(7, 2710871209194686221622850787300558437896286944374783nat) == 15261188860948225230936826354494812263179472493877213053958824417238147925618nat);
    lemma_fpow_double(7, 2710871209194686221622850787300558437896286944374783nat);
    assert(fmul(15261188860948225230936826354494812263179472493877213053958824417238147925618nat, 15261188860948225230936826354494812263179472493877213053958824417238147925618nat) == 10687963883109711071419320066743020209006410654789506836595045706788219887710nat) by (nonlinear_arith)
        requires
            modulus() == 52435875175126190479447740508185965837690552500527637822603658699938581184513nat,
    ;
    assert(fpow(7, 5421742418389372443245701574601116875792573888749566nat) == 10687963883109711071419320066743020209006410654789506836595045706788219887710nat);
    assert(fmul(7, 10687963883109711071419320066743020209006410654789506836595045706788219887710nat) == 22379872006641787020487499959015175625354322082998910033561661247578958029457nat) by (nonlinear_arith)
        requires
            modulus() == 52435875175126190479447740508185965837690552500527637822603658699938581184513nat,
    ;
    assert(fpow(7, 5421742418389372443245701574601116875792573888749567nat) == 22379872006641787020487499959015175625354322082998910033561661247578958029457nat);
    lemma_fpow_double(7, 5421742418389372443245701574601116875792573888749567nat);
    assert(fmul(22379872006641787020487499959015175625354322082998910033561661247578958029457nat, 22379872006641787020487499959015175625354322082998910033561661247578958029457nat) == 39016403855932743604181232196812371009052640499473305202276592988284738691627nat) by (nonlinear_arith)
        requires
            modulus() == 52435875175126190479447740508185965837690552500527637822603658699938581184513nat,
    ;
    assert(fpow(7, 10843484836778744886491403149202233751585147777499134nat) == 39016403855932743604181232196812371009052640499473305202276592988284738691627nat);
    assert(fmul(7, 39016403855932743604181232196812371009052640499473305202276592988284738691627nat) == 10935451115898252832029922836756767874915720993674947302917857418300264918824nat) by (nonlinear_arith)
        requires
            modulus() == 52435875175126190479447740508185965837690552500527637822603658699938581184513nat,
    ;
    assert(fpow(7, 10843484836778744886491403149202233751585147777499135nat) == 10935451115898252832029922836756767874915720993674947302917857418300264918824nat);
    lemma_fpow_double(7, 10843484836778744886491403149202233751585147777499135nat);
    assert(fmul(10935451115898252832029922836756767874915720993674947302917857418300264918824nat, 10935451115898252832029922836756767874915720993674947302917857418300264918824nat) == 19285419528335126304413131665389294049910208187696107787215746753593161998011nat) by (nonlinear_arith)
        requires
            modulus() == 52435875175126190479447740508185965837690552500527637822603658699938581184513nat,
    ;
    assert(fpow(7, 21686969673557489772982806298404467503170295554998270nat) == 19285419528335126304413131665389294049910208187696107787215746753593161998011nat);
    assert(fmul(7, 19285419528335126304413131665389294049910208187696107787215746753593161998011nat) == 30126186348093503171996440641353126673990352312817478865302909875274971617051nat) by (nonlinear_arith)
        requires
            modulus() == 52435875175126190479447740508185965837690552500527637822603658699938581184513nat,
    ;
    assert(fpow(7, 21686969673557489772982806298404467503170295554998271nat) == 30126186348093503171996440641353126673990352312817478865302909875274971617051nat);
    lemma_fpow_double(7, 21686969673557489772982806298404467503170295554998271nat);
    assert(fmul(30126186348093503171996440641353126673990352312817478865302909875274971617051nat, 30126186348093503171996440641353126673990352312817478865302909875274971617051nat) == 22127622315854843200459329920983835617392452180234416376969667893760890541734nat) by (nonlinear_arith)
        requires
            modulus() == 52435875175126190479447740508185965837690552500527637822603658699938581184513nat,
    ;
    assert(fpow(7, 43373939347114979545965612596808935006340591109996542nat) == 22127622315854843200459329920983835617392452180234416376969667893760890541734nat);
    lemma_fpow_double(7, 43373939347114979545965612596808935006340591109996542nat);
    assert(fmul(22127622315854843200459329920983835617392452180234416376969667893760890541734nat, 22127622315854843200459329920983835617392452180234416376969667893760890541734nat) == 16162762308014454819406886605677459243719592559484685227792038760845741009232nat) by (nonlinear_arith)
        requires
            modulus() == 52435875175126190479447740508185965837690552500527637822603658699938581184513nat,
    ;
    assert(fpow(7, 86747878694229959091931225193617870012681182219993084nat) == 16162762308014454819406886605677459243719592559484685227792038760845741009232nat);
    lemma_fpow_double(7, 86747878694229959091931225193617870012681182219993084nat);
    assert(fmul(16162762308014454819406886605677459243719592559484685227792038760845741009232nat, 16162762308014454819406886605677459243719592559484685227792038760845741009232nat) == 23771109298407529529130616319496914000124643828280604841544035847258487422634nat) by (nonlinear_arith)
        requires
            modulus() == 52435875175126190479447740508185965837690552500527637822603658699938581184513nat,
    ;
    assert(fpow(7, 173495757388459918183862450387235740025362364439986168nat) == 23771109298407529529130616319496914000124643828280604841544035847258487422634nat);
    assert(fmul(7, 23771109298407529529130616319496914000124643828280604841544035847258487422634nat) == 9090139563474135265571092711920500487800849296381320422997274830993668404899nat) by (nonlinear_arith)
        requires
            modulus() == 52435875175126190479447740508185965837690552500527637822603658699938581184513nat,
    ;
    assert(fpow(7, 173495757388459918183862450387235740025362364439986169nat) == 9090139563474135265571092711920500487800849296381320422997274830993668404899nat);
    lemma_fpow_double(7, 173495757388459918183862450387235740025362364439986169nat);
    assert(fmul(9090139563474135265571092711920500487800849296381320422997274830993668404899nat, 9090139563474135265571092711920500487800849296381320422997274830993668404899nat) == 25188949360303728673906757346702090696932032749713462208049185911383258370173nat) by (nonlinear_arith)
        requires
            modulus() == 52435875175126190479447740508185965837690552500527637822603658699938581184513nat,
    ;
    assert(fpow(7, 346991514776919836367724900774471480050724728879972338nat) == 25188949360303728673906757346702090696932032749713462208049185911383258370173nat);
    lemma_fpow_double(7, 346991514776919836367724900774471480050724728879972338nat);
    assert(fmul(25188949360303728673906757346702090696932032749713462208049185911383258370173nat, 25188949360303728673906757346702090696932032749713462208049185911383258370173nat) == 8596329619844419329251241108718711976972135424216360596424244363893478919528nat) by (nonlinear_arith)
        requires
            modulus() == 52435875175126190479447740508185965837690552500527637822603658699938581184513nat,
    ;
    assert(fpow(7, 693983029553839672735449801548942960101449457759944676nat) == 8596329619844419329251241108718711976972135424216360596424244363893478919528nat);
    assert(fmul(7, 8596329619844419329251241108718711976972135424216360596424244363893478919528nat) == 7738432163784744825310947252845018001114395468986886352366051847315771252183nat) by (nonlinear_arith)
        requires
            modulus() == 52435875175126190479447740508185965837690552500527637822603658699938581184513nat,
    ;
    assert(fpow(7, 693983029553839672735449801548942960101449457759944677nat) == 7738432163784744825310947252845018001114395468986886352366051847315771252183nat);
    lemma_fpow_double(7, 693983029553839672735449801548942960101449457759944677nat);
    assert(fmul(7738432163784744825310947252845018001114395468986886352366051847315771252183nat, 7738432163784744825310947252845018001114395468986886352366051847315771252183nat) == 22093018783009013839996542679397330029798369647183965210156289740350800257951nat) by (nonlinear_arith)
        requires
            modulus() == 52435875175126190479447740508185965837690552500527637822603658699938581184513nat,
    ;
    assert(fpow(7, 1387966059107679345470899603097885920202898915519889354nat) == 22093018783009013839996542679397330029798369647183965210156289740350800257951nat);
    assert(fmul(7, 22093018783009013839996542679397330029798369647183965210156289740350800257951nat) == 49779381130810715921080317739409378533207482529232480825886710782578439436631nat) by (nonlinear_arith)
        requires
            modulus() == 52435875175126190479447740508185965837690552500527637822603658699938581184513nat,
    ;
    assert(fpow(7, 1387966059107679345470899603097885920202898915519889355nat) == 49779381130810715921080317739409378533207482529232480825886710782578439436631nat);
    lemma_fpow_double(7, 1387966059107679345470899603097885920202898915519889355nat);
    assert(fmul(49779381130810715921080317739409378533207482529232480825886710782578439436631nat, 49779381130810715921080317739409378533207482529232480825886710782578439436631nat) == 52052614916732026438494395807962988545382734338042726186762901359303970799051nat) by (nonlinear_arith)
        requires
            modulus() == 52435875175126190479447740508185965837690552500527637822603658699938581184513nat,
    ;
    assert(fpow(7, 2775932118215358690941799206195771840405797831039778710nat) == 52052614916732026438494395807962988545382734338042726186762901359303970799051nat);
}

proof fn lemma_generator_power_16()
    ensures
        fpow(7, 11370217956210109198097609548577881458302147915938933600251nat) == 38714807310035404309570935439969805065862584246411836485770409685714868722103nat,
{
    lemma_generator_power_15();
    lemma_fpow_double(7, 2775932118215358690941799206195771840405797831039778710nat);
    assert(fmul(52052614916732026438494395807962988545382734338042726186762901359303970799051nat, 52052614916732026438494395807962988545382734338042726186762901359303970799051nat) == 19823399502619746605868563994070425400326683403041303256557025237744134099824nat) by (nonlinear_arith)
        requires
            modulus() == 52435875175126190479447740508185965837690552500527637822603658699938581184513nat,
    ;
    assert(fpow(7, 5551864236430717381883598412391543680811595662079557420nat) == 19823399502619746605868563994070425400326683403041303256557025237744134099824nat);
    assert(fmul(7, 19823399502619746605868563994070425400326683403041303256557025237744134099824nat) == 33892046168085845282184466942121046126905678820233847150691859264331776329742nat) by (nonlinear_arith)
        requires
            modulus() == 52435875175126190479447740508185965837690552500527637822603658699938581184513nat,
    ;
    assert(fpow(7, 5551864236430717381883598412391543680811595662079557421nat) == 33892046168085845282184466942121046126905678820233847150691859264331776329742nat);
    lemma_fpow_double(7, 5551864236430717381883598412391543680811595662079557421nat);
    assert(fmul(33892046168085845282184466942121046126905678820233847150691859264331776329742nat, 33892046168085845282184466942121046126905678820233847150691859264331776329742nat) == 45039186462786825561834924443343358291533764090213572464787944721982944432288nat) by (nonlinear_arith)
        requires
            modulus() == 52435875175126190479447740508185965837690552500527637822603658699938581184513nat,
    ;
    assert(fpow(7, 11103728472861434763767196824783087361623191324159114842nat) == 45039186462786825561834924443343358291533764090213572464787944721982944432288nat);
    assert(fmul(7, 45039186462786825561834924443343358291533764090213572464787944721982944432288nat) == 659054188750636056158028054287713014593033628329180317893660854249123918938nat) by (nonlinear_arith)
        requires
            modulus() == 52435875175126190479447740508185965837690552500527637822603658699938581184513nat,
    ;
    assert(fpow(7, 11103728472861434763767196824783087361623191324159114843nat) == 659054188750636056158028054287713014593033628329180317893660854249123918938nat);
    lemma_fpow_double(7, 11103728472861434763767196824783087361623191324159114843nat);
    assert(fmul(659054188750636056158028054287713014593033628329180317893660854249123918938nat, 659054188750636056158028054287713014593033628329180317893660854249123918938nat) == 14359608010303302295786847270144701923625255595907165280345197277396695966146nat) by (nonlinear_arith)
        requires
            modulus() == 52435875175126190479447740508185965837690552500527637822603658699938581184513nat,
    ;
    assert(fpow(7, 22207456945722869527534393649566174723246382648318229686nat) == 14359608010303302295786847270144701923625255595907165280345197277396695966146nat);
    assert(fmul(7, 14359608010303302295786847270144701923625255595907165280345197277396695966146nat) == 48081380896996925591060190382826947627686236670822519139812722241838290578509nat) by (nonlinear_arith)
        requires
            modulus() == 52435875175126190479447740508185965837690552500527637822603658699938581184513nat,
    ;
    assert(fpow(7, 22207456945722869527534393649566174723246382648318229687nat) == 48081380896996925591060190382826947627686236670822519139812722241838290578509nat);
    lemma_fpow_double(7, 22207456945722869527534393649566174723246382648318229687nat);
    assert(fmul(48081380896996925591060190382826947627686236670822519139812722241838290578509nat, 48081380896996925591060190382826947627686236670822519139812722241838290578509nat) == 48281052171371520141383216329938524162418081916935050297062549965126822783543nat) by (nonlinear_arith)
        requires
            modulus() == 52435875175126190479447740508185965837690552500527637822603658699938581184513nat,
    ;
    assert(fpow(7, 44414913891445739055068787299132349446492765296636459374nat) == 48281052171371520141383216329938524162418081916935050297062549965126822783543nat);
    assert(fmul(7, 48281052171371520141383216329938524162418081916935050297062549965126822783543nat) == 23352114148843498112996071260453874110783258415379525143815897556256272377723nat) by (nonlinear_arith)
        requires
            modulus() == 52435875175126190479447740508185965837690552500527637822603658699938581184513nat,
    ;
    assert(fpow(7, 44414913891445739055068787299132349446492765296636459375nat) == 23352114148843498112996071260453874110783258415379525143815897556256272377723nat);
    lemma_fpow_double(7, 44414913891445739055068787299132349446492765296636459375nat);
    assert(fmul(23352114148843498112996071260453874110783258415379525143815897556256272377723nat, 23352114148843498112996071260453874110783258415379525143815897556256272377723nat) == 33733592594092484511668197009597142421327284256787938011692272392762272010253nat) by (nonlinear_arith)
        requires
            modulus() == 52435875175126190479447740508185965837690552500527637822603658699938581184513nat,
    ;
    assert(fpow(7, 88829827782891478110137574598264698892985530593272918750nat) == 33733592594092484511668197009597142421327284256787938011692272392762272010253nat);
    assert(fmul(7, 33733592594092484511668197009597142421327284256787938011692272392762272010253nat) == 26391647458142629663886417034436133598528779795405014791431271949581579333719nat) by (nonlinear_arith)
        requires
            modulus() == 52435875175126190479447740508185965837690552500527637822603658699938581184513nat,
    ;
    assert(fpow(7, 88829827782891478110137574598264698892985530593272918751nat) == 26391647458142629663886417034436133598528779795405014791431271949581579333719nat);
    lemma_fpow_double(7, 88829827782891478110137574598264698892985530593272918751nat);
    assert(fmul(26391647458142629663886417034436133598528779795405014791431271949581579333719nat, 26391647458142629663886417034436133598528779795405014791431271949581579333719nat) == 39670626638136823527445988762459582570613273158904273448435835681644544088808nat) by (nonlinear_arith)
        requires
            modulus() == 52435875175126190479447740508185965837690552500527637822603658699938581184513nat,
    ;
    assert(fpow(7, 177659655565782956220275149196529397785971061186545837502nat) == 39670626638136823527445988762459582570613273158904273448435835681644544088808nat);
    assert(fmul(7, 39670626638136823527445988762459582570613273158904273448435835681644544088808nat) == 15515010591326812294883218796287248805840149609691725026032556271818902699091nat) by (nonlinear_arith)
        requires
            modulus() == 52435875175126190479447740508185965837690552500527637822603658699938581184513nat,
    ;
    assert(fpow(7, 177659655565782956220275149196529397785971061186545837503nat) == 15515010591326812294883218796287248805840149609691725026032556271818902699091nat);
    lemma_fpow_double(7, 177659655565782956220275149196529397785971061186545837503nat);
    assert(fmul(15515010591326812294883218796287248805840149609691725026032556271818902699091nat, 15515010591326812294883218796287248805840149609691725026032556271818902699091nat) == 27300950864775431796075759769615579784403142471945920024955963765253779702280nat) by (nonlinear_arith)
        requires
            modulus() == 52435875175126190479447740508185965837690552500527637822603658699938581184513nat,
    ;
    assert(fpow(7, 355319311131565912440550298393058795571942122373091675006nat) == 27300950864775431796075759769615579784403142471945920024955963765253779702280nat);
    assert(fmul(7, 27300950864775431796075759769615579784403142471945920024955963765253779702280nat) == 33799030528049451134187096862751160977750339802038526706880770256960714362421nat) by (nonlinear_arith)
        requires
            modulus() == 52435875175126190479447740508185965837690552500527637822603658699938581184513nat,
    ;
    assert(fpow(7, 355319311131565912440550298393058795571942122373091675007nat) == 33799030528049451134187096862751160977750339802038526706880770256960714362421nat);
    lemma_fpow_double(7, 355319311131565912440550298393058795571942122373091675007nat);
    assert(fmul(33799030528049451134187096862751160977750339802038526706880770256960714362421nat, 33799030528049451134187096862751160977750339802038526706880770256960714362421nat) == 39082368008734884005932644695885246669140012649899382712188569858532554295787nat) by (nonlinear_arith)
        requires
            modulus() == 52435875175126190479447740508185965837690552500527637822603658699938581184513nat,
    ;
    assert(fpow(7, 710638622263131824881100596786117591143884244746183350014nat) == 39082368008734884005932644695885246669140012649899382712188569858532554295787nat);
    assert(fmul(7, 39082368008734884005932644695885246669140012649899382712188569858532554295787nat) == 11397200185513235644289810330266897495527326046657489872301695510034974147944nat) by (nonlinear_arith)
        requires
            modulus() == 52435875175126190479447740508185965837690552500527637822603658699938581184513nat,
    ;
    assert(fpow(7, 710638622263131824881100596786117591143884244746183350015nat) == 11397200185513235644289810330266897495527326046657489872301695510034974147944nat);
    lemma_fpow_double(7, 710638622263131824881100596786117591143884244746183350015nat);
    assert(fmul(11397200185513235644289810330266897495527326046657489872301695510034974147944nat, 11397200185513235644289810330266897495527326046657489872301695510034974147944nat) == 8222928891071223573713975022275110609390865728325467503580219630708658567528nat) by (nonlinear_arith)
        requires
            modulus() == 52435875175126190479447740508185965837690552500527637822603658699938581184513nat,
    ;
    assert(fpow(7, 1421277244526263649762201193572235182287768489492366700030nat) == 8222928891071223573713975022275110609390865728325467503580219630708658567528nat);
    assert(fmul(7, 8222928891071223573713975022275110609390865728325467503580219630708658567528nat) == 5124627062372374536550084647739808428045507597750634702457878715022028788183nat) by (nonlinear_arith)
        requires
            modulus() == 52435875175126190479447740508185965837690552500527637822603658699938581184513nat,
    ;
    assert(fpow(7, 1421277244526263649762201193572235182287768489492366700031nat) == 5124627062372374536550084647739808428045507597750634702457878715022028788183nat);
    lemma_fpow_double(7, 1421277244526263649762201193572235182287768489492366700031nat);
    assert(fmul(5124627062372374536550084647739808428045507597750634702457878715022028788183nat, 5124627062372374536550084647739808428045507597750634702457878715022028788183nat) == 8972182163159280585710768820689105444765793574402337251583361137192289601116nat) by (nonlinear_arith)
        requires
            modulus() == 52435875175126190479447740508185965837690552500527637822603658699938581184513nat,
    ;
    assert(fpow(7, 2842554489052527299524402387144470364575536978984733400062nat) == 8972182163159280585710768820689105444765793574402337251583361137192289601116nat);
    lemma_fpow_double(7, 2842554489052527299524402387144470364575536978984733400062nat);
    assert(fmul(8972182163159280585710768820689105444765793574402337251583361137192289601116nat, 8972182163159280585710768820689105444765793574402337251583361137192289601116nat) == 31439532351775268475694280875158953298220407220924223056792829858797815259578nat) by (nonlinear_arith)
        requires
            modulus() == 52435875175126190479447740508185965837690552500527637822603658699938581184513nat,
    ;
    assert(fpow(7, 5685108978105054599048804774288940729151073957969466800124nat) == 31439532351775268475694280875158953298220407220924223056792829858797815259578nat);
    assert(fmul(7, 31439532351775268475694280875158953298220407220924223056792829858797815259578nat) == 10333225761922117412069004093368809736780640544359010107135174211830382078994nat) by (nonlinear_arith)
        requires
            modulus() == 52435875175126190479447740508185965837690552500527637822603658699938581184513nat,
    ;
    assert(fpow(7, 5685108978105054599048804774288940729151073957969466800125nat) == 10333225761922117412069004093368809736780640544359010107135174211830382078994nat);
    lemma_fpow_double(7, 5685108978105054599048804774288940729151073957969466800125nat);
    assert(fmul(10333225761922117412069004093368809736780640544359010107135174211830382078994nat, 10333225761922117412069004093368809736780640544359010107135174211830382078994nat) == 35494044001505738032480271067530524059517827749788912539455006355067027637165nat) by (nonlinear_arith)
        requires
            modulus() == 52435875175126190479447740508185965837690552500527637822603658699938581184513nat,
    ;
    assert(fpow(7, 11370217956210109198097609548577881458302147915938933600250nat) == 35494044001505738032480271067530524059517827749788912539455006355067027637165nat);
    assert(fmul(7, 35494044001505738032480271067530524059517827749788912539455006355067027637165nat) == 38714807310035404309570935439969805065862584246411836485770409685714868722103nat) by (nonlinear_arith)
        requires
            modulus() == 52435875175126190479447740508185965837690552500527637822603658699938581184513nat,
    ;
    assert(fpow(7, 11370217956210109198097609548577881458302147915938933600251nat) == 38714807310035404309570935439969805065862584246411836485770409685714868722103nat);
}

proof fn lemma_generator_power_17()
    ensures
        fpow(7, 46572412748636607275407808710975002453205597863685872026632191nat) == 14802557994176207858381293879232154356623464400922009970247142579442711191981nat,
{
    lemma_generator_power_16();
    lemma_fpow_double(7, 11370217956210109198097609548577881458302147915938933600251nat);
    assert(fmul(38714807310035404309570935439969805065862584246411836485770409685714868722103nat, 38714807310035404309570935439969805065862584246411836485770409685714868722103nat) == 6577666142376612206673896334617788682001633565492996168200254439690836070062nat) by (nonlinear_arith)
        requires
            modulus() == 52435875175126190479447740508185965837690552500527637822603658699938581184513nat,
    ;
    assert(fpow(7, 22740435912420218396195219097155762916604295831877867200502nat) == 6577666142376612206673896334617788682001633565492996168200254439690836070062nat);
    assert(fmul(7, 6577666142376612206673896334617788682001633565492996168200254439690836070062nat) == 46043662996636285446717274342324520774011434958450973177401781077835852490434nat) by (nonlinear_arith)
        requires
            modulus() == 52435875175126190479447740508185965837690552500527637822603658699938581184513nat,
    ;
    assert(fpow(7, 22740435912420218396195219097155762916604295831877867200503nat) == 46043662996636285446717274342324520774011434958450973177401781077835852490434nat);
    lemma_fpow_double(7, 22740435912420218396195219097155762916604295831877867200503nat);
    assert(fmul(46043662996636285446717274342324520774011434958450973177401781077835852490434nat, 46043662996636285446717274342324520774011434958450973177401781077835852490434nat) == 42535768273379643989464996081079191951757013512518849520256547066047367028034nat) by (nonlinear_arith)
        requires
            modulus() == 52435875175126190479447740508185965837690552500527637822603658699938581184513nat,
    ;
    assert(fpow(7, 45480871824840436792390438194311525833208591663755734401006nat) == 42535768273379643989464996081079191951757013512518849520256547066047367028034nat);
    assert(fmul(7, 42535768273379643989464996081079191951757013512518849520256547066047367028034nat) == 35571002038026555529016270026624514473846332084993757528777535962638663273673nat) by (nonlinear_arith)
        requires
            modulus() == 52435875175126190479447740508185965837690552500527637822603658699938581184513nat,
    ;
    assert(fpow(7, 45480871824840436792390438194311525833208591663755734401007nat) == 35571002038026555529016270026624514473846332084993757528777535962638663273673nat);
    lemma_fpow_double(7, 45480871824840436792390438194311525833208591663755734401007nat);
    assert(fmul(35571002038026555529016270026624514473846332084993757528777535962638663273673nat, 35571002038026555529016270026624514473846332084993757528777535962638663273673nat) == 47541844777404279330439408516291363607018268711639832225451615216889518826956nat) by (nonlinear_arith)
        requires
            modulus() == 52435875175126190479447740508185965837690552500527637822603658699938581184513nat,
    ;
    assert(fpow(7, 90961743649680873584780876388623051666417183327511468802014nat) == 47541844777404279330439408516291363607018268711639832225451615216889518826956nat);
    assert(fmul(7, 47541844777404279330439408516291363607018268711639832225451615216889518826956nat) == 18177662391072812436389416564923750222984565978312998642539354318595144681614nat) by (nonlinear_arith)
        requires
            modulus() == 52435875175126190479447740508185965837690552500527637822603658699938581184513nat,
    ;
    assert(fpow(7, 90961743649680873584780876388623051666417183327511468802015nat) == 18177662391072812436389416564923750222984565978312998642539354318595144681614nat);
    lemma_fpow_double(7, 90961743649680873584780876388623051666417183327511468802015nat);
    assert(fmul(18177662391072812436389416564923750222984565978312998642539354318595144681614nat, 18177662391072812436389416564923750222984565978312998642539354318595144681614nat) == 51519111562802309917699829511685663850852431677067703431429873771572581158326nat) by (nonlinear_arith)
        requires
            modulus() == 52435875175126190479447740508185965837690552500527637822603658699938581184513nat,
    ;
    assert(fpow(7, 181923487299361747169561752777246103332834366655022937604030nat) == 51519111562802309917699829511685663850852431677067703431429873771572581158326nat);
    assert(fmul(7, 51519111562802309917699829511685663850852431677067703431429873771572581158326nat) == 46018529888859026547212363532683851929823706736308097084387164201376581001204nat) by (nonlinear_arith)
        requires
            modulus() == 52435875175126190479447740508185965837690552500527637822603658699938581184513nat,
    ;
    assert(fpow(7, 181923487299361747169561752777246103332834366655022937604031nat) == 46018529888859026547212363532683851929823706736308097084387164201376581001204nat);
    lemma_fpow_double(7, 181923487299361747169561752777246103332834366655022937604031nat);
    assert(fmul(46018529888859026547212363532683851929823706736308097084387164201376581001204nat, 46018529888859026547212363532683851929823706736308097084387164201376581001204nat) == 36248789635547622428855621676682651620678833054962448317492830860386040131117nat) by (nonlinear_arith)
        requires
            modulus() == 52435875175126190479447740508185965837690552500527637822603658699938581184513nat,
    ;
    assert(fpow(7, 363846974598723494339123505554492206665668733310045875208062nat) == 36248789635547622428855621676682651620678833054962448317492830860386040131117nat);
    assert(fmul(7, 36248789635547622428855621676682651620678833054962448317492830860386040131117nat) == 43998026748328595084198389704034697993989621382626586932035181222947956179767nat) by (nonlinear_arith)
        requires
            modulus() == 52435875175126190479447740508185965837690552500527637822603658699938581184513nat,
    ;
    assert(fpow(7, 363846974598723494339123505554492206665668733310045875208063nat) == 43998026748328595084198389704034697993989621382626586932035181222947956179767nat);
    lemma_fpow_double(7, 363846974598723494339123505554492206665668733310045875208063nat);
    assert(fmul(43998026748328595084198389704034697993989621382626586932035181222947956179767nat, 43998026748328595084198389704034697993989621382626586932035181222947956179767nat) == 46636081242024987909137116365761114677253861176128168488267903446483931985840nat) by (nonlinear_arith)
        requires
            modulus() == 52435875175126190479447740508185965837690552500527637822603658699938581184513nat,
    ;
    assert(fpow(7, 727693949197446988678247011108984413331337466620091750416126nat) == 46636081242024987909137116365761114677253861176128168488267903446483931985840nat);
    assert(fmul(7, 46636081242024987909137116365761114677253861176128168488267903446483931985840nat) == 11837317643417772487273371511212007714633713229731352482253371925756036793802nat) by (nonlinear_arith)
        requires
            modulus() == 52435875175126190479447740508185965837690552500527637822603658699938581184513nat,
    ;
    assert(fpow(7, 727693949197446988678247011108984413331337466620091750416127nat) == 11837317643417772487273371511212007714633713229731352482253371925756036793802nat);
    lemma_fpow_double(7, 727693949197446988678247011108984413331337466620091750416127nat);
    assert(fmul(11837317643417772487273371511212007714633713229731352482253371925756036793802nat, 11837317643417772487273371511212007714633713229731352482253371925756036793802nat) == 1747369593967276967547340760426437633703056727623805286568089131435205743851nat) by (nonlinear_arith)
        requires
            modulus() == 52435875175126190479447740508185965837690552500527637822603658699938581184513nat,
    ;
    assert(fpow(7, 1455387898394893977356494022217968826662674933240183500832254nat) == 1747369593967276967547340760426437633703056727623805286568089131435205743851nat);
    assert(fmul(7, 1747369593967276967547340760426437633703056727623805286568089131435205743851nat) == 12231587157770938772831385322985063435921397093366637005976623920046440206957nat) by (nonlinear_arith)
        requires
            modulus() == 52435875175126190479447740508185965837690552500527637822603658699938581184513nat,
    ;
    assert(fpow(7, 1455387898394893977356494022217968826662674933240183500832255nat) == 12231587157770938772831385322985063435921397093366637005976623920046440206957nat);
    lemma_fpow_double(7, 1455387898394893977356494022217968826662674933240183500832255nat);
    assert(fmul(12231587157770938772831385322985063435921397093366637005976623920046440206957nat, 12231587157770938772831385322985063435921397093366637005976623920046440206957nat) == 28953294774764368357091576963196227085916657366209896023681833785685805563987nat) by (nonlinear_arith)
        requires
            modulus() == 52435875175126190479447740508185965837690552500527637822603658699938581184513nat,
    ;
    assert(fpow(7, 2910775796789787954712988044435937653325349866480367001664510nat) == 28953294774764368357091576963196227085916657366209896023681833785685805563987nat);
    assert(fmul(7, 28953294774764368357091576963196227085916657366209896023681833785685805563987nat) == 45365437897972007061297817217815692088344944061886358697961860399984895394370nat) by (nonlinear_arith)
        requires
            modulus() == 52435875175126190479447740508185965837690552500527637822603658699938581184513nat,
    ;
    assert(fpow(7, 2910775796789787954712988044435937653325349866480367001664511nat) == 45365437897972007061297817217815692088344944061886358697961860399984895394370nat);
    lemma_fpow_double(7, 2910775796789787954712988044435937653325349866480367001664511nat);
    assert(fmul(45365437897972007061297817217815692088344944061886358697961860399984895394370nat, 45365437897972007061297817217815692088344944061886358697961860399984895394370nat) == 14312495485901455891974586921565733325054045932926635485368376709231589529842nat) by (nonlinear_arith)
        requires
            modulus() == 52435875175126190479447740508185965837690552500527637822603658699938581184513nat,
    ;
    assert(fpow(7, 5821551593579575909425976088871875306650699732960734003329022nat) == 14312495485901455891974586921565733325054045932926635485368376709231589529842nat);
    assert(fmul(7, 14312495485901455891974586921565733325054045932926635485368376709231589529842nat) == 47751593226184000764374367942774167437687769029958810574974978264682545524381nat) by (nonlinear_arith)
        requires
            modulus() == 52435875175126190479447740508185965837690552500527637822603658699938581184513nat,
    ;
    assert(fpow(7, 5821551593579575909425976088871875306650699732960734003329023nat) == 47751593226184000764374367942774167437687769029958810574974978264682545524381nat);
    lemma_fpow_double(7, 5821551593579575909425976088871875306650699732960734003329023nat);
    assert(fmul(47751593226184000764374367942774167437687769029958810574974978264682545524381nat, 47751593226184000764374367942774167437687769029958810574974978264682545524381nat) == 14063113703478265420392876697590598625108797560470741944038672682583973116745nat) by (nonlinear_arith)
        requires
            modulus() == 52435875175126190479447740508185965837690552500527637822603658699938581184513nat,
    ;
    assert(fpow(7, 11643103187159151818851952177743750613301399465921468006658046nat) == 14063113703478265420392876697590598625108797560470741944038672682583973116745nat);
    assert(fmul(7, 14063113703478265420392876697590598625108797560470741944038672682583973116745nat) == 46005920749221667463302396374948224538071030422767555785667050078149230632702nat) by (nonlinear_arith)
        requires
            modulus() == 52435875175126190479447740508185965837690552500527637822603658699938581184513nat,
    ;
    assert(fpow(7, 11643103187159151818851952177743750613301399465921468006658047nat) == 46005920749221667463302396374948224538071030422767555785667050078149230632702nat);
    lemma_fpow_double(7, 11643103187159151818851952177743750613301399465921468006658047nat);
    assert(fmul(46005920749221667463302396374948224538071030422767555785667050078149230632702nat, 46005920749221667463302396374948224538071030422767555785667050078149230632702nat) == 50317714887695889100383619359639290540804824775643898010080919758742390995011nat) by (nonlinear_arith)
        requires
            modulus() == 52435875175126190479447740508185965837690552500527637822603658699938581184513nat,
    ;
    assert(fpow(7, 23286206374318303637703904355487501226602798931842936013316094nat) == 50317714887695889100383619359639290540804824775643898010080919758742390995011nat);
    assert(fmul(7, 50317714887695889100383619359639290540804824775643898010080919758742390995011nat) == 37608753163114080825998892468359238759490458426341459134944486111565249857999nat) by (nonlinear_arith)
        requires
            modulus() == 52435875175126190479447740508185965837690552500527637822603658699938581184513nat,
    ;
    assert(fpow(7, 23286206374318303637703904355487501226602798931842936013316095nat) == 37608753163114080825998892468359238759490458426341459134944486111565249857999nat);
    lemma_fpow_double(7, 23286206374318303637703904355487501226602798931842936013316095nat);
    assert(fmul(37608753163114080825998892468359238759490458426341459134944486111565249857999nat, 37608753163114080825998892468359238759490458426341459134944486111565249857999nat) == 39568847695686737179374285202880283363582318129080028440466490868447945302078nat) by (nonlinear_arith)
        requires
            modulus() == 52435875175126190479447740508185965837690552500527637822603658699938581184513nat,
    ;
    assert(fpow(7, 46572412748636607275407808710975002453205597863685872026632190nat) == 39568847695686737179374285202880283363582318129080028440466490868447945302078nat);
    assert(fmul(7, 39568847695686737179374285202880283363582318129080028440466490868447945302078nat) == 14802557994176207858381293879232154356623464400922009970247142579442711191981nat) by (nonlinear_arith)
        requires
            modulus() == 52435875175126190479447740508185965837690552500527637822603658699938581184513nat,
    ;
    assert(fpow(7, 46572412748636607275407808710975002453205597863685872026632191nat) == 14802557994176207858381293879232154356623464400922009970247142579442711191981nat);
}

proof fn lemma_generator_power_18()
    ensures
        fpow(7, 190760602618415543400070384480153610048330128849657331821085458431nat) == 51923271797565088984694433709928514808237031441724767807473304973948299351613nat,
{
    lemma_generator_power_17();
    lemma_fpow_double(7, 46572412748636607275407808710975002453205597863685872026632191nat);
    assert(fmul(14802557994176207858381293879232154356623464400922009970247142579442711191981nat, 14802557994176207858381293879232154356623464400922009970247142579442711191981nat) == 16541417876173846789230052339609641835804024384418130342797201181361958525641nat) by (nonlinear_arith)
        requires
            modulus() == 52435875175126190479447740508185965837690552500527637822603658699938581184513nat,
    ;
    assert(fpow(7, 93144825497273214550815617421950004906411195727371744053264382nat) == 16541417876173846789230052339609641835804024384418130342797201181361958525641nat);
    assert(fmul(7, 16541417876173846789230052339609641835804024384418130342797201181361958525641nat) == 10918174782964546565714885360895561175247065689871636754373090869656547310461nat) by (nonlinear_arith)
        requires
            modulus() == 52435875175126190479447740508185965837690552500527637822603658699938581184513nat,
    ;
    assert(fpow(7, 93144825497273214550815617421950004906411195727371744053264383nat) == 10918174782964546565714885360895561175247065689871636754373090869656547310461nat);
    lemma_fpow_double(7, 93144825497273214550815617421950004906411195727371744053264383nat);
    assert(fmul(10918174782964546565714885360895561175247065689871636754373090869656547310461nat, 10918174782964546565714885360895561175247065689871636754373090869656547310461nat) == 27513117922689639128081719325075889237389045126916563876547289986178347785239nat) by (nonlinear_arith)
        requires
            modulus() == 52435875175126190479447740508185965837690552500527637822603658699938581184513nat,
    ;
    assert(fpow(7, 186289650994546429101631234843900009812822391454743488106528766nat) == 27513117922689639128081719325075889237389045126916563876547289986178347785239nat);
    assert(fmul(7, 27513117922689639128081719325075889237389045126916563876547289986178347785239nat) == 35284199933448902458228813750973327148651658386833033668020053803432690943134nat) by (nonlinear_arith)
        requires
            modulus() == 52435875175126190479447740508185965837690552500527637822603658699938581184513nat,
    ;
    assert(fpow(7, 186289650994546429101631234843900009812822391454743488106528767nat) == 35284199933448902458228813750973327148651658386833033668020053803432690943134nat);
    lemma_fpow_double(7, 186289650994546429101631234843900009812822391454743488106528767nat);
    assert(fmul(35284199933448902458228813750973327148651658386833033668020053803432690943134nat, 35284199933448902458228813750973327148651658386833033668020053803432690943134nat) == 228206509770762389808303795740617894533927812151776688724073411602769245175nat) by (nonlinear_arith)
        requires
            modulus() == 52435875175126190479447740508185965837690552500527637822603658699938581184513nat,
    ;
    assert(fpow(7, 372579301989092858203262469687800019625644782909486976213057534nat) == 228206509770762389808303795740617894533927812151776688724073411602769245175nat);
    assert(fmul(7, 228206509770762389808303795740617894533927812151776688724073411602769245175nat) == 1597445568395336728658126570184325261737494685062436821068513881219384716225nat) by (nonlinear_arith)
        requires
            modulus() == 52435875175126190479447740508185965837690552500527637822603658699938581184513nat,
    ;
    assert(fpow(7, 372579301989092858203262469687800019625644782909486976213057535nat) == 1597445568395336728658126570184325261737494685062436821068513881219384716225nat);
    lemma_fpow_double(7, 372579301989092858203262469687800019625644782909486976213057535nat);
    assert(fmul(1597445568395336728658126570184325261737494685062436821068513881219384716225nat, 1597445568395336728658126570184325261737494685062436821068513881219384716225nat) == 18142346786822998121820660742160418292628090759383240660814289898681646615845nat) by (nonlinear_arith)
        requires
            modulus() == 52435875175126190479447740508185965837690552500527637822603658699938581184513nat,
    ;
    assert(fpow(7, 745158603978185716406524939375600039251289565818973952426115070nat) == 18142346786822998121820660742160418292628090759383240660814289898681646615845nat);
    assert(fmul(7, 18142346786822998121820660742160418292628090759383240660814289898681646615845nat) == 22124677157508605893849144178750996373015530314627408980492711890894363941889nat) by (nonlinear_arith)
        requires
            modulus() == 52435875175126190479447740508185965837690552500527637822603658699938581184513nat,
    ;
    assert(fpow(7, 745158603978185716406524939375600039251289565818973952426115071nat) == 22124677157508605893849144178750996373015530314627408980492711890894363941889nat);
    lemma_fpow_double(7, 745158603978185716406524939375600039251289565818973952426115071nat);
    assert(fmul(22124677157508605893849144178750996373015530314627408980492711890894363941889nat, 22124677157508605893849144178750996373015530314627408980492711890894363941889nat) == 17520080909130592145673134122315586641249207331879172287406969927706438677107nat) by (nonlinear_arith)
        requires
            modulus() == 52435875175126190479447740508185965837690552500527637822603658699938581184513nat,
    ;
    assert(fpow(7, 1490317207956371432813049878751200078502579131637947904852230142nat) == 17520080909130592145673134122315586641249207331879172287406969927706438677107nat);
    assert(fmul(7, 17520080909130592145673134122315586641249207331879172287406969927706438677107nat) == 17768816013661764060816457839837174813363346322098930366641472094067908370723nat) by (nonlinear_arith)
        requires
            modulus() == 52435875175126190479447740508185965837690552500527637822603658699938581184513nat,
    ;
    assert(fpow(7, 1490317207956371432813049878751200078502579131637947904852230143nat) == 17768816013661764060816457839837174813363346322098930366641472094067908370723nat);
    lemma_fpow_double(7, 1490317207956371432813049878751200078502579131637947904852230143nat);
    assert(fmul(17768816013661764060816457839837174813363346322098930366641472094067908370723nat, 17768816013661764060816457839837174813363346322098930366641472094067908370723nat) == 6837333869599069541195409084982753956366771212175492793642815045050495594166nat) by (nonlinear_arith)
        requires
            modulus() == 52435875175126190479447740508185965837690552500527637822603658699938581184513nat,
    ;
    assert(fpow(7, 2980634415912742865626099757502400157005158263275895809704460286nat) == 6837333869599069541195409084982753956366771212175492793642815045050495594166nat);
    assert(fmul(7, 6837333869599069541195409084982753956366771212175492793642815045050495594166nat) == 47861337087193486788367863594879277694567398485228449555499705315353469159162nat) by (nonlinear_arith)
        requires
            modulus() == 52435875175126190479447740508185965837690552500527637822603658699938581184513nat,
    ;
    assert(fpow(7, 2980634415912742865626099757502400157005158263275895809704460287nat) == 47861337087193486788367863594879277694567398485228449555499705315353469159162nat);
    lemma_fpow_double(7, 2980634415912742865626099757502400157005158263275895809704460287nat);
    assert(fmul(47861337087193486788367863594879277694567398485228449555499705315353469159162nat, 47861337087193486788367863594879277694567398485228449555499705315353469159162nat) == 46291347778228694998833289473972545406886161081458276530089830075681886948777nat) by (nonlinear_arith)
        requires
            modulus() == 52435875175126190479447740508185965837690552500527637822603658699938581184513nat,
    ;
    assert(fpow(7, 5961268831825485731252199515004800314010316526551791619408920574nat) == 46291347778228694998833289473972545406886161081458276530089830075681886948777nat);
    assert(fmul(7, 46291347778228694998833289473972545406886161081458276530089830075681886948777nat) == 9424183396843722115146583268692022822059812567042108775006858330141721534361nat) by (nonlinear_arith)
        requires
            modulus() == 52435875175126190479447740508185965837690552500527637822603658699938581184513nat,
    ;
    assert(fpow(7, 5961268831825485731252199515004800314010316526551791619408920575nat) == 9424183396843722115146583268692022822059812567042108775006858330141721534361nat);
    lemma_fpow_double(7, 5961268831825485731252199515004800314010316526551791619408920575nat);
    assert(fmul(9424183396843722115146583268692022822059812567042108775006858330141721534361nat, 9424183396843722115146583268692022822059812567042108775006858330141721534361nat) == 870503827218617649541693549011690625863033809130266674245282505028135610877nat) by (nonlinear_arith)
        requires
            modulus() == 52435875175126190479447740508185965837690552500527637822603658699938581184513nat,
    ;
    assert(fpow(7, 11922537663650971462504399030009600628020633053103583238817841150nat) == 870503827218617649541693549011690625863033809130266674245282505028135610877nat);
    assert(fmul(7, 870503827218617649541693549011690625863033809130266674245282505028135610877nat) == 6093526790530323546791854843081834381041236663911866719716977535196949276139nat) by (nonlinear_arith)
        requires
            modulus() == 52435875175126190479447740508185965837690552500527637822603658699938581184513nat,
    ;
    assert(fpow(7, 11922537663650971462504399030009600628020633053103583238817841151nat) == 6093526790530323546791854843081834381041236663911866719716977535196949276139nat);
    lemma_fpow_double(7, 11922537663650971462504399030009600628020633053103583238817841151nat);
    assert(fmul(6093526790530323546791854843081834381041236663911866719716977535196949276139nat, 6093526790530323546791854843081834381041236663911866719716977535196949276139nat) == 25848911303881951951677881188029307098159954043774117964752361577744633976914nat) by (nonlinear_arith)
        requires
            modulus() == 52435875175126190479447740508185965837690552500527637822603658699938581184513nat,
    ;
    assert(fpow(7, 23845075327301942925008798060019201256041266106207166477635682302nat) == 25848911303881951951677881188029307098159954043774117964752361577744633976914nat);
    assert(fmul(7, 25848911303881951951677881188029307098159954043774117964752361577744633976914nat) == 23634753601795092223401946791647252174048020804835912285455554944396694284859nat) by (nonlinear_arith)
        requires
            modulus() == 52435875175126190479447740508185965837690552500527637822603658699938581184513nat,
    ;
    assert(fpow(7, 23845075327301942925008798060019201256041266106207166477635682303nat) == 23634753601795092223401946791647252174048020804835912285455554944396694284859nat);
    lemma_fpow_double(7, 23845075327301942925008798060019201256041266106207166477635682303nat);
    assert(fmul(23634753601795092223401946791647252174048020804835912285455554944396694284859nat, 23634753601795092223401946791647252174048020804835912285455554944396694284859nat) == 4892312525062925271332523429951473651981145989794872166450322267833446768368nat) by (nonlinear_arith)
        requires
            modulus() == 52435875175126190479447740508185965837690552500527637822603658699938581184513nat,
    ;
    assert(fpow(7, 47690150654603885850017596120038402512082532212414332955271364606nat) == 4892312525062925271332523429951473651981145989794872166450322267833446768368nat);
    assert(fmul(7, 4892312525062925271332523429951473651981145989794872166450322267833446768368nat) == 34246187675440476899327664009660315563868021928564105165152255874834127378576nat) by (nonlinear_arith)
        requires
            modulus() == 52435875175126190479447740508185965837690552500527637822603658699938581184513nat,
    ;
    assert(fpow(7, 47690150654603885850017596120038402512082532212414332955271364607nat) == 34246187675440476899327664009660315563868021928564105165152255874834127378576nat);
    lemma_fpow_double(7, 47690150654603885850017596120038402512082532212414332955271364607nat);
    assert(fmul(34246187675440476899327664009660315563868021928564105165152255874834127378576nat, 34246187675440476899327664009660315563868021928564105165152255874834127378576nat) == 20457195189218295919683210537181101565213747147823698989327195982867675883584nat) by (nonlinear_arith)
        requires
            modulus() == 52435875175126190479447740508185965837690552500527637822603658699938581184513nat,
    ;
    assert(fpow(7, 95380301309207771700035192240076805024165064424828665910542729214nat) == 20457195189218295919683210537181101565213747147823698989327195982867675883584nat);
    assert(fmul(7, 20457195189218295919683210537181101565213747147823698989327195982867675883584nat) == 38328615974275690478886992743895779281115125033710617280083054480196568816062nat) by (nonlinear_arith)
        requires
            modulus() == 52435875175126190479447740508185965837690552500527637822603658699938581184513nat,
    ;
    assert(fpow(7, 95380301309207771700035192240076805024165064424828665910542729215nat) == 38328615974275690478886992743895779281115125033710617280083054480196568816062nat);
    lemma_fpow_double(7, 95380301309207771700035192240076805024165064424828665910542729215nat);
    assert(fmul(38328615974275690478886992743895779281115125033710617280083054480196568816062nat, 38328615974275690478886992743895779281115125033710617280083054480196568816062nat) == 22399288878259638563369987818042920926231162348968577636097231767689351674377nat) by (nonlinear_arith)
        requires
            modulus() == 52435875175126190479447740508185965837690552500527637822603658699938581184513nat,
    ;
    assert(fpow(7, 190760602618415543400070384480153610048330128849657331821085458430nat) == 22399288878259638563369987818042920926231162348968577636097231767689351674377nat);
    assert(fmul(7, 22399288878259638563369987818042920926231162348968577636097231767689351674377nat) == 51923271797565088984694433709928514808237031441724767807473304973948299351613nat) by (nonlinear_arith)
        requires
            modulus() == 52435875175126190479447740508185965837690552500527637822603658699938581184513nat,
    ;
    assert(fpow(7, 190760602618415543400070384480153610048330128849657331821085458431nat) == 51923271797565088984694433709928514808237031441724767807473304973948299351613nat);
}

proof fn lemma_generator_power_19()
    ensures
        fpow(7, 12208678567578594777604504606729831043093128246378069236549469339647nat) == 10238227357739495823651030575849232062558860180284477541189508159991286009131nat,
{
    lemma_generator_power_18();
    lemma_fpow_double(7, 190760602618415543400070384480153610048330128849657331821085458431nat);
    assert(fmul(51923271797565088984694433709928514808237031441724767807473304973948299351613nat, 51923271797565088984694433709928514808237031441724767807473304973948299351613nat) == 32752081923490917387444166696322430890177575812123800757841434761179438050829nat) by (nonlinear_arith)
        requires
            modulus() == 52435875175126190479447740508185965837690552500527637822603658699938581184513nat,
    ;
    assert(fpow(7, 381521205236831086800140768960307220096660257699314663642170916862nat) == 32752081923490917387444166696322430890177575812123800757841434761179438050829nat);
    assert(fmul(7, 32752081923490917387444166696322430890177575812123800757841434761179438050829nat) == 19521072763931659794318204841513152880480820682756054014475408528501741617751nat) by (nonlinear_arith)
        requires
            modulus() == 52435875175126190479447740508185965837690552500527637822603658699938581184513nat,
    ;
    assert(fpow(7, 381521205236831086800140768960307220096660257699314663642170916863nat) == 19521072763931659794318204841513152880480820682756054014475408528501741617751nat);
    lemma_fpow_double(7, 381521205236831086800140768960307220096660257699314663642170916863nat);
    assert(fmul(19521072763931659794318204841513152880480820682756054014475408528501741617751nat, 19521072763931659794318204841513152880480820682756054014475408528501741617751nat) == 18750642115844045195617460394351033617664650310479722098241162136921345343731nat) by (nonlinear_arith)
        requires
            modulus() == 52435875175126190479447740508185965837690552500527637822603658699938581184513nat,
    ;
    assert(fpow(7, 763042410473662173600281537920614440193320515398629327284341833726nat) == 18750642115844045195617460394351033617664650310479722098241162136921345343731nat);
    assert(fmul(7, 18750642115844045195617460394351033617664650310479722098241162136921345343731nat) == 26382744460655935410426741744085303648271447172302779042480817558572255037091nat) by (nonlinear_arith)
        requires
            modulus() == 52435875175126190479447740508185965837690552500527637822603658699938581184513nat,
    ;
    assert(fpow(7, 763042410473662173600281537920614440193320515398629327284341833727nat) == 26382744460655935410426741744085303648271447172302779042480817558572255037091nat);
    lemma_fpow_double(7, 763042410473662173600281537920614440193320515398629327284341833727nat);
    assert(fmul(26382744460655935410426741744085303648271447172302779042480817558572255037091nat, 26382744460655935410426741744085303648271447172302779042480817558572255037091nat) == 8389262214751489982054928546103374360267984954198158597582388691553883182625nat) by (nonlinear_arith)
        requires
            modulus() == 52435875175126190479447740508185965837690552500527637822603658699938581184513nat,
    ;
    assert(fpow(7, 1526084820947324347200563075841228880386641030797258654568683667454nat) == 8389262214751489982054928546103374360267984954198158597582388691553883182625nat);
    assert(fmul(7, 8389262214751489982054928546103374360267984954198158597582388691553883182625nat) == 6288960328134239394936759314537654684185342178859472360473062140938601093862nat) by (nonlinear_arith)
        requires
            modulus() == 52435875175126190479447740508185965837690552500527637822603658699938581184513nat,
    ;
    assert(fpow(7, 1526084820947324347200563075841228880386641030797258654568683667455nat) == 6288960328134239394936759314537654684185342178859472360473062140938601093862nat);
    lemma_fpow_double(7, 1526084820947324347200563075841228880386641030797258654568683667455nat);
    assert(fmul(6288960328134239394936759314537654684185342178859472360473062140938601093862nat, 6288960328134239394936759314537654684185342178859472360473062140938601093862nat) == 665989970644916338371915622109689019555622705434238262625332351243323324032nat) by (nonlinear_arith)
        requires
            modulus() == 52435875175126190479447740508185965837690552500527637822603658699938581184513nat,
    ;
    assert(fpow(7, 3052169641894648694401126151682457760773282061594517309137367334910nat) == 665989970644916338371915622109689019555622705434238262625332351243323324032nat);
    assert(fmul(7, 665989970644916338371915622109689019555622705434238262625332351243323324032nat) == 4661929794514414368603409354767823136889358938039667838377326458703263268224nat) by (nonlinear_arith)
        requires
            modulus() == 52435875175126190479447740508185965837690552500527637822603658699938581184513nat,
    ;
    assert(fpow(7, 3052169641894648694401126151682457760773282061594517309137367334911nat) == 4661929794514414368603409354767823136889358938039667838377326458703263268224nat);
    lemma_fpow_double(7, 3052169641894648694401126151682457760773282061594517309137367334911nat);
    assert(fmul(4661929794514414368603409354767823136889358938039667838377326458703263268224nat, 4661929794514414368603409354767823136889358938039667838377326458703263268224nat) == 50568181350999548820779594299814022868006413903614787618168039700263121585327nat) by (nonlinear_arith)
        requires
            modulus() == 52435875175126190479447740508185965837690552500527637822603658699938581184513nat,
    ;
    assert(fpow(7, 6104339283789297388802252303364915521546564123189034618274734669822nat) == 50568181350999548820779594299814022868006413903614787618168039700263121585327nat);
    assert(fmul(7, 50568181350999548820779594299814022868006413903614787618168039700263121585327nat) == 39362018406239698868770717049582365049901582322137686391554325702210363990211nat) by (nonlinear_arith)
        requires
            modulus() == 52435875175126190479447740508185965837690552500527637822603658699938581184513nat,
    ;
    assert(fpow(7, 6104339283789297388802252303364915521546564123189034618274734669823nat) == 39362018406239698868770717049582365049901582322137686391554325702210363990211nat);
    lemma_fpow_double(7, 6104339283789297388802252303364915521546564123189034618274734669823nat);
    assert(fmul(39362018406239698868770717049582365049901582322137686391554325702210363990211nat, 39362018406239698868770717049582365049901582322137686391554325702210363990211nat) == 31425961151177751105920284658370442201903010026056432690229163279963658678169nat) by (nonlinear_arith)
        requires
            modulus() == 52435875175126190479447740508185965837690552500527637822603658699938581184513nat,
    ;
    assert(fpow(7, 12208678567578594777604504606729831043093128246378069236549469339646nat) == 31425961151177751105920284658370442201903010026056432690229163279963658678169nat);
    assert(fmul(7, 31425961151177751105920284658370442201903010026056432690229163279963658678169nat) == 10238227357739495823651030575849232062558860180284477541189508159991286009131nat) by (nonlinear_arith)
        requires
            modulus() == 52435875175126190479447740508185965837690552500527637822603658699938581184513nat,
    ;
    assert(fpow(7, 12208678567578594777604504606729831043093128246378069236549469339647nat) == 10238227357739495823651030575849232062558860180284477541189508159991286009131nat);
}

/// The root of unity of order `2^32` as a number.
pub open spec fn two_adic_root_value() -> nat {
    10238227357739495823651030575849232062558860180284477541189508159991286009131nat
}

/// The generator raised to the odd part of the order of the multiplicative
/// group is the number above.
pub proof fn lemma_two_adic_root_value()
    ensures
        two_adic_root() == two_adic_root_value(),
{
    lemma_generator_power_19();
    assert(((modulus() - 1) / 0x1_0000_0000) as nat == 12208678567578594777604504606729831043093128246378069236549469339647nat);
}

proof fn lemma_root_squared_16()
    ensures
        squared_times(two_adic_root_value(), 16) == 15076889834420168339092859836519192632846122361203618639585008852351569017005nat,
{
    let w = two_adic_root_value();
    assert(squared_times(w, 0) == w);
    assert(fmul(10238227357739495823651030575849232062558860180284477541189508159991286009131nat, 10238227357739495823651030575849232062558860180284477541189508159991286009131nat) == 34070893824967080313820779135880760772780807222436853681508667398599787661631nat) by (nonlinear_arith)
        requires
            modulus() == 52435875175126190479447740508185965837690552500527637822603658699938581184513nat,
    ;
    assert(squared_times(w, 1) == 34070893824967080313820779135880760772780807222436853681508667398599787661631nat);
    assert(fmul(34070893824967080313820779135880760772780807222436853681508667398599787661631nat, 34070893824967080313820779135880760772780807222436853681508667398599787661631nat) == 20094891866007995289136270587723853997043774683345353712639419774914899074390nat) by (nonlinear_arith)
        requires
            modulus() == 52435875175126190479447740508185965837690552500527637822603658699938581184513nat,
    ;
    assert(squared_times(w, 2) == 20094891866007995289136270587723853997043774683345353712639419774914899074390nat);
    assert(fmul(20094891866007995289136270587723853997043774683345353712639419774914899074390nat, 20094891866007995289136270587723853997043774683345353712639419774914899074390nat) == 5660829372603820951332104046316074966592589311213397907344198301300676239643nat) by (nonlinear_arith)
        requires
            modulus() == 52435875175126190479447740508185965837690552500527637822603658699938581184513nat,
    ;
    assert(squared_times(w, 3) == 5660829372603820951332104046316074966592589311213397907344198301300676239643nat);
    assert(fmul(5660829372603820951332104046316074966592589311213397907344198301300676239643nat, 5660829372603820951332104046316074966592589311213397907344198301300676239643nat) == 37480612446576615530266821837655054090426372233228960378061628060638903214217nat) by (nonlinear_arith)
        requires
            modulus() == 52435875175126190479447740508185965837690552500527637822603658699938581184513nat,
    ;
    assert(squared_times(w, 4) == 37480612446576615530266821837655054090426372233228960378061628060638903214217nat);
    assert(fmul(37480612446576615530266821837655054090426372233228960378061628060638903214217nat, 37480612446576615530266821837655054090426372233228960378061628060638903214217nat) == 15932505959375582308231798849995567447410469395474322018100309999481287547373nat) by (nonlinear_arith)
        requires
            modulus() == 52435875175126190479447740508185965837690552500527637822603658699938581184513nat,
    ;
    assert(squared_times(w, 5) == 15932505959375582308231798849995567447410469395474322018100309999481287547373nat);
    assert(fmul(15932505959375582308231798849995567447410469395474322018100309999481287547373nat, 15932505959375582308231798849995567447410469395474322018100309999481287547373nat) == 4541622677469846713471916119560591929733417256448031920623614406126544048514nat) by (nonlinear_arith)
        requires
            modulus() == 52435875175126190479447740508185965837690552500527637822603658699938581184513nat,
    ;
    assert(squared_times(w, 6) == 4541622677469846713471916119560591929733417256448031920623614406126544048514nat);
    assert(fmul(4541622677469846713471916119560591929733417256448031920623614406126544048514nat, 4541622677469846713471916119560591929733417256448031920623614406126544048514nat) == 734830308204920577628633053915970695663549910788964686411700880930222744862nat) by (nonlinear_arith)
        requires
            modulus() == 52435875175126190479447740508185965837690552500527637822603658699938581184513nat,
    ;
    assert(squared_times(w, 7) == 734830308204920577628633053915970695663549910788964686411700880930222744862nat);
    assert(fmul(734830308204920577628633053915970695663549910788964686411700880930222744862nat, 734830308204920577628633053915970695663549910788964686411700880930222744862nat) == 18596002123094854211120822350746157678791770803088570110573239418060655130524nat) by (nonlinear_arith)
        requires
            modulus() == 52435875175126190479447740508185965837690552500527637822603658699938581184513nat,
    ;
    assert(squared_times(w, 8) == 18596002123094854211120822350746157678791770803088570110573239418060655130524nat);
    assert(fmul(18596002123094854211120822350746157678791770803088570110573239418060655130524nat, 18596002123094854211120822350746157678791770803088570110573239418060655130524nat) == 52167942466760591552294394977846462646742207006759917080697723404762651336366nat) by (nonlinear_arith)
        requires
            modulus() == 52435875175126190479447740508185965837690552500527637822603658699938581184513nat,
    ;
    assert(squared_times(w, 9) == 52167942466760591552294394977846462646742207006759917080697723404762651336366nat);
    assert(fmul(52167942466760591552294394977846462646742207006759917080697723404762651336366nat, 52167942466760591552294394977846462646742207006759917080697723404762651336366nat) == 4859563557044021881916617240989566298388494151979623102977292742331120628579nat) by (nonlinear_arith)
        requires
            modulus() == 52435875175126190479447740508185965837690552500527637822603658699938581184513nat,
    ;
    assert(squared_times(w, 10) == 4859563557044021881916617240989566298388494151979623102977292742331120628579nat);
    assert(fmul(4859563557044021881916617240989566298388494151979623102977292742331120628579nat, 4859563557044021881916617240989566298388494151979623102977292742331120628579nat) == 32468834368094611004052562760214251466632493208153926274007662173556188291130nat) by (nonlinear_arith)
        requires
            modulus() == 52435875175126190479447740508185965837690552500527637822603658699938581184513nat,
    ;
    assert(squared_times(w, 11) == 32468834368094611004052562760214251466632493208153926274007662173556188291130nat);
    assert(fmul(32468834368094611004052562760214251466632493208153926274007662173556188291130nat, 32468834368094611004052562760214251466632493208153926274007662173556188291130nat) == 1755840822790712607783180844474754741366353396308200820563736496551326485835nat) by (nonlinear_arith)
        requires
            modulus() == 52435875175126190479447740508185965837690552500527637822603658699938581184513nat,
    ;
    assert(squared_times(w, 12) == 1755840822790712607783180844474754741366353396308200820563736496551326485835nat);
    assert(fmul(1755840822790712607783180844474754741366353396308200820563736496551326485835nat, 1755840822790712607783180844474754741366353396308200820563736496551326485835nat) == 37115000097562964541269718788523040559386243094666416358585267518228781043101nat) by (nonlinear_arith)
        requires
            modulus() == 52435875175126190479447740508185965837690552500527637822603658699938581184513nat,
    ;
    assert(squared_times(w, 13) == 37115000097562964541269718788523040559386243094666416358585267518228781043101nat);
    assert(fmul(37115000097562964541269718788523040559386243094666416358585267518228781043101nat, 37115000097562964541269718788523040559386243094666416358585267518228781043101nat) == 20439484849038267462774237595151440867617792718791690563928621375157525968123nat) by (nonlinear_arith)
        requires
            modulus() == 52435875175126190479447740508185965837690552500527637822603658699938581184513nat,
    ;
    assert(squared_times(w, 14) == 20439484849038267462774237595151440867617792718791690563928621375157525968123nat);
    assert(fmul(20439484849038267462774237595151440867617792718791690563928621375157525968123nat, 20439484849038267462774237595151440867617792718791690563928621375157525968123nat) == 15495926509001846844474268026226183818445427694968626800913907911890390421264nat) by (nonlinear_arith)
        requires
            modulus() == 52435875175126190479447740508185965837690552500527637822603658699938581184513nat,
    ;
    assert(squared_times(w, 15) == 15495926509001846844474268026226183818445427694968626800913907911890390421264nat);
    assert(fmul(15495926509001846844474268026226183818445427694968626800913907911890390421264nat, 15495926509001846844474268026226183818445427694968626800913907911890390421264nat) == 15076889834420168339092859836519192632846122361203618639585008852351569017005nat) by (nonlinear_arith)
        requires
            modulus() == 52435875175126190479447740508185965837690552500527637822603658699938581184513nat,
    ;
    assert(squared_times(w, 16) == 15076889834420168339092859836519192632846122361203618639585008852351569017005nat);
}

proof fn lemma_root_squared_31()
    ensures
        squared_times(two_adic_root_value(), 31) == 52435875175126190479447740508185965837690552500527637822603658699938581184512nat,
{
    let w = two_adic_root_value();
    lemma_root_squared_16();
    assert(fmul(15076889834420168339092859836519192632846122361203618639585008852351569017005nat, 15076889834420168339092859836519192632846122361203618639585008852351569017005nat) == 22872204467218851938836547481240843888453165451755431061227190987689039608686nat) by (nonlinear_arith)
        requires
            modulus() == 52435875175126190479447740508185965837690552500527637822603658699938581184513nat,
    ;
    assert(squared_times(w, 17) == 22872204467218851938836547481240843888453165451755431061227190987689039608686nat);
    assert(fmul(22872204467218851938836547481240843888453165451755431061227190987689039608686nat, 22872204467218851938836547481240843888453165451755431061227190987689039608686nat) == 39072540533732477250409069030641316533649120504872707460480262653418090977761nat) by (nonlinear_arith)
        requires
            modulus() == 52435875175126190479447740508185965837690552500527637822603658699938581184513nat,
    ;
    assert(squared_times(w, 18) == 39072540533732477250409069030641316533649120504872707460480262653418090977761nat);
    assert(fmul(39072540533732477250409069030641316533649120504872707460480262653418090977761nat, 39072540533732477250409069030641316533649120504872707460480262653418090977761nat) == 32731401973776920074999878620293785439674386180695720638377027142500196583783nat) by (nonlinear_arith)
        requires
            modulus() == 52435875175126190479447740508185965837690552500527637822603658699938581184513nat,
    ;
    assert(squared_times(w, 19) == 32731401973776920074999878620293785439674386180695720638377027142500196583783nat);
    assert(fmul(32731401973776920074999878620293785439674386180695720638377027142500196583783nat, 32731401973776920074999878620293785439674386180695720638377027142500196583783nat) == 39033254847818212395286706435128746857159659164139250548781411570340225835782nat) by (nonlinear_arith)
        requires
            modulus() == 52435875175126190479447740508185965837690552500527637822603658699938581184513nat,
    ;
    assert(squared_times(w, 20) == 39033254847818212395286706435128746857159659164139250548781411570340225835782nat);
    assert(fmul(39033254847818212395286706435128746857159659164139250548781411570340225835782nat, 39033254847818212395286706435128746857159659164139250548781411570340225835782nat) == 49307615728544765012166121802278658070711169839041683575071795236746050763237nat) by (nonlinear_arith)
        requires
            modulus() == 52435875175126190479447740508185965837690552500527637822603658699938581184513nat,
    ;
    assert(squared_times(w, 21) == 49307615728544765012166121802278658070711169839041683575071795236746050763237nat);
    assert(fmul(49307615728544765012166121802278658070711169839041683575071795236746050763237nat, 49307615728544765012166121802278658070711169839041683575071795236746050763237nat) == 22781213702924172180523978385542388841346373992886390990881355510284839737428nat) by (nonlinear_arith)
        requires
            modulus() == 52435875175126190479447740508185965837690552500527637822603658699938581184513nat,
    ;
    assert(squared_times(w, 22) == 22781213702924172180523978385542388841346373992886390990881355510284839737428nat);
    assert(fmul(22781213702924172180523978385542388841346373992886390990881355510284839737428nat, 22781213702924172180523978385542388841346373992886390990881355510284839737428nat) == 4214636447306890335450803789410475782380792963881561516561680164772024173390nat) by (nonlinear_arith)
        requires
            modulus() == 52435875175126190479447740508185965837690552500527637822603658699938581184513nat,
    ;
    assert(squared_times(w, 23) == 4214636447306890335450803789410475782380792963881561516561680164772024173390nat);
    assert(fmul(4214636447306890335450803789410475782380792963881561516561680164772024173390nat, 4214636447306890335450803789410475782380792963881561516561680164772024173390nat) == 36007022166693598376559747923784822035233416720563672082740011604939309541707nat) by (nonlinear_arith)
        requires
            modulus() == 52435875175126190479447740508185965837690552500527637822603658699938581184513nat,
    ;
    assert(squared_times(w, 24) == 36007022166693598376559747923784822035233416720563672082740011604939309541707nat);
    assert(fmul(36007022166693598376559747923784822035233416720563672082740011604939309541707nat, 36007022166693598376559747923784822035233416720563672082740011604939309541707nat) == 47309214877430199588914062438791732591241783999377560080318349803002842391998nat) by (nonlinear_arith)
        requires
            modulus() == 52435875175126190479447740508185965837690552500527637822603658699938581184513nat,
    ;
    assert(squared_times(w, 25) == 47309214877430199588914062438791732591241783999377560080318349803002842391998nat);
    assert(fmul(47309214877430199588914062438791732591241783999377560080318349803002842391998nat, 47309214877430199588914062438791732591241783999377560080318349803002842391998nat) == 31519469946562159605140591558550197856588417350474800936898404023113662197331nat) by (nonlinear_arith)
        requires
            modulus() == 52435875175126190479447740508185965837690552500527637822603658699938581184513nat,
    ;
    assert(squared_times(w, 26) == 31519469946562159605140591558550197856588417350474800936898404023113662197331nat);
    assert(fmul(31519469946562159605140591558550197856588417350474800936898404023113662197331nat, 31519469946562159605140591558550197856588417350474800936898404023113662197331nat) == 36581797046584068049060372878520385032448812009597153775348195406694427778894nat) by (nonlinear_arith)
        requires
            modulus() == 52435875175126190479447740508185965837690552500527637822603658699938581184513nat,
    ;
    assert(squared_times(w, 27) == 36581797046584068049060372878520385032448812009597153775348195406694427778894nat);
    assert(fmul(36581797046584068049060372878520385032448812009597153775348195406694427778894nat, 36581797046584068049060372878520385032448812009597153775348195406694427778894nat) == 14788168760825820622209131888203028446852016562542525606630160374691593895118nat) by (nonlinear_arith)
        requires
            modulus() == 52435875175126190479447740508185965837690552500527637822603658699938581184513nat,
    ;
    assert(squared_times(w, 28) == 14788168760825820622209131888203028446852016562542525606630160374691593895118nat);
    assert(fmul(14788168760825820622209131888203028446852016562542525606630160374691593895118nat, 14788168760825820622209131888203028446852016562542525606630160374691593895118nat) == 23674694431658770659612952115660802947967373701506253797663184111817857449850nat) by (nonlinear_arith)
        requires
            modulus() == 52435875175126190479447740508185965837690552500527637822603658699938581184513nat,
    ;
    assert(squared_times(w, 29) == 23674694431658770659612952115660802947967373701506253797663184111817857449850nat);
    assert(fmul(23674694431658770659612952115660802947967373701506253797663184111817857449850nat, 23674694431658770659612952115660802947967373701506253797663184111817857449850nat) == 3465144826073652318776269530687742778270252468765361963008nat) by (nonlinear_arith)
        requires
            modulus() == 52435875175126190479447740508185965837690552500527637822603658699938581184513nat,
    ;
    assert(squared_times(w, 30) == 3465144826073652318776269530687742778270252468765361963008nat);
    assert(fmul(3465144826073652318776269530687742778270252468765361963008nat, 3465144826073652318776269530687742778270252468765361963008nat) == 52435875175126190479447740508185965837690552500527637822603658699938581184512nat) by (nonlinear_arith)
        requires
            modulus() == 52435875175126190479447740508185965837690552500527637822603658699938581184513nat,
    ;
    assert(squared_times(w, 31) == 52435875175126190479447740508185965837690552500527637822603658699938581184512nat);
}

proof fn lemma_root_squared_32()
    ensures
        squared_times(two_adic_root_value(), 32) == 1nat,
{
    let w = two_adic_root_value();
    lemma_root_squared_31();
    assert(fmul(52435875175126190479447740508185965837690552500527637822603658699938581184512nat, 52435875175126190479447740508185965837690552500527637822603658699938581184512nat) == 1nat) by (nonlinear_arith)
        requires
            modulus() == 52435875175126190479447740508185965837690552500527637822603658699938581184513nat,
    ;
    assert(squared_times(w, 32) == 1nat);
}

/// Squared 31 times the root is minus one, and squared 32 times it is one.
pub proof fn lemma_root_order()
    ensures
        squared_times(two_adic_root(), 31) == modulus() - 1,
        squared_times(two_adic_root(), 32) == 1,
{
    lemma_two_adic_root_value();
    lemma_root_squared_31();
    lemma_root_squared_32();
}

} // verus!
