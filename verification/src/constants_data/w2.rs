//! The raw limb data of permutation width 2: the `(8 + 56) * 2`
//! additive round constants and the `2 * 2` row-major mixing matrix,
//! each entry a canonical field value below the modulus, little-endian in
//! four 64-bit limbs.

use vstd::prelude::*;

verus! {

use vstd::slice::slice_to_vec;

const C_T2: [[u64; 4]; 128] = [
    [7817616578516342695, 12041114087599168795, 18311542326445259320, 703809069991762900],
    [4331763550625516417, 14201023056939694132, 3069182888826189263, 865630468011650756],
    [3566474286914161200, 11533337848482785469, 1454188893941615860, 2173164774482348753],
    [5546713666651497759, 1033391138293734294, 579106019186219236, 2859554329514026824],
    [8767088134270176771, 4695306501711252744, 4209243863731017562, 2192991121640820561],
    [17805298208823395027, 307985100983112664, 9602098390607458494, 3055472776560074307],
    [3909282107706262992, 13368341216138434697, 1588073989677247728, 821623203604019809],
    [15755426777904750113, 803549746874466029, 9443029210981129783, 85256046229640304],
    [3247251991413109177, 7841264143924049595, 18269122915921683453, 167401055085182909],
    [17247355753810440945, 6068911149477229014, 7812597725061720419, 1699111382917971815],
    [9086616471667026833, 11249876738920507827, 10531948423244928237, 3180709101917510650],
    [6045638319889455877, 14048485700492070853, 12407180079391136579, 2072174480898319934],
    [6746110078988393302, 33862480341740752, 12893055833257516694, 2688747040681077131],
    [12762121410920968153, 12583693102466367891, 8782570957304574643, 2901298802732085988],
    [3713045009585348675, 1753181911864277204, 2064049868111244977, 2891709276830441329],
    [1377859005849043657, 17213302918879987073, 2250098761913978943, 3179338808143010527],
    [7236023902221217737, 15698137225854421603, 9669998922288655229, 552725606465661892],
    [4024542742229642300, 10676338206571928785, 2835917563533532670, 157668069081079593],
    [8178076668328059049, 12133895062126733470, 11597165300144392768, 2002257975968913669],
    [3056574329694873596, 15152835891335545375, 2336296560329179629, 3322569079616917512],
    [12034835072381781688, 11425246710696692215, 1304950287065922640, 1307437582895567736],
    [7625324869890990606, 15546400408522906137, 10556636253062694543, 208545047093026385],
    [7874519155181355406, 5699848720424976135, 9177764430905078766, 2242454803620536339],
    [16918768489580524930, 1451360297318946841, 8369495911896295217, 1617545695573194041],
    [2102853383857409991, 14818696684473492633, 6265715398128913129, 2899825424943956492],
    [7012031407790312396, 7509561033518701014, 15049632849442349075, 2029501729809436367],
    [10865896729759530941, 1457647043961857778, 17836922434109140734, 2409290043080073586],
    [1270566041830377352, 14891794189842536868, 7258252898854293803, 3174236381978470231],
    [14648639749528776515, 1660232324255600783, 5210356524639407775, 1649235115699342888],
    [5246011419136659397, 8583939463376414991, 3988539085160041585, 1683479457214066523],
    [15620172062379863602, 7684285279883317076, 18351497879714015238, 897786720739953686],
    [10540561140639464845, 8506771935836737836, 14152240211101678991, 1890431831991524277],
    [10793138928641828495, 600618435932543590, 13877963886452429632, 923200061044958949],
    [16205809318213838742, 7397066335257516860, 3160198027865047320, 1510601990922667766],
    [9866801240052691026, 14702449656399697352, 10881482235068204458, 676305374017174802],
    [12677365286172731501, 1380435406082811253, 13772227141419739068, 1911790097914468531],
    [5489908542194921755, 2355146368963641151, 14798397298817373515, 1210238513617216306],
    [8460619148043677965, 18025577457283642374, 13675017155226021032, 395862298079042366],
    [12655186675713445102, 13358011002929926133, 15297284634119018636, 2917372813350125739],
    [8034273717284931869, 2185982791782152782, 12951413382393270415, 2440726185204156347],
    [4539500151132553907, 8691376595824906200, 4478210354694403277, 2010233294366166640],
    [5248272632199042497, 15189336710541847786, 7498899605340474637, 2778056244288907515],
    [13620651143643946710, 14256350727656881413, 14270146554555854060, 1015468296665738832],
    [292554386543128384, 10515732338267378288, 8858109166056940592, 348791369923272870],
    [3104459525386259054, 3706509501996465542, 9346457373566313197, 998628960351368213],
    [9955704627847062859, 3816150674512517976, 8539215117740000962, 2851037169766766418],
    [9563222423978047977, 4134090717682400521, 4931886900955358576, 2181286346732320574],
    [14179168894901588400, 18055191287518198047, 7173507097360274271, 2426987407020299813],
    [6365929671746204939, 9605027792591653205, 5594195411713214760, 250501994217948813],
    [10132915144326598729, 14559655054176323244, 7670837463673856084, 12761215476027430],
    [1135687413980796326, 15748351523129783305, 2119141318581095358, 1310926709634850203],
    [6973840191868739265, 1133547488339520846, 7358060163725254722, 856422543455136065],
    [2537781629768649754, 3952926295132561306, 6300924289786463548, 1930189990533446405],
    [5893579505698628222, 6778702467274214034, 6866130142038735678, 1555505760660470978],
    [15478953192464200210, 17403454457297442222, 7721529128250960608, 1360294703589482407],
    [353188889562277050, 14892186255215643417, 11432173571329174096, 1137487999655651371],
    [11276615796778280802, 12776567518989086543, 15488694486527196992, 2277707700932731970],
    [10166206986740036819, 364106907529202693, 17928232400318857972, 1062132786353612405],
    [8828067068861466321, 4253212145573359161, 7613892610833863104, 3222308960075869855],
    [10432355210345241023, 14877110326726120038, 6198435499051035424, 1917810163665871564],
    [9789163323282868015, 15042360471542282800, 6820767863046574897, 3031296629605872474],
    [10751711984671309920, 16661266258360878322, 1565276276401255440, 2592303526438568973],
    [2742332881621149863, 11803538530403661451, 2637639035157985731, 398335568721703586],
    [3126142991524034215, 151352264296347077, 14564917722384201204, 1369303116767000612],
    [517437299484701558, 10194692261461724337, 16589035092694756392, 1853713095538544151],
    [2639673604112600959, 1428143039648754754, 13095801650290172662, 97933583764930581],
    [16902791728491724753, 18311104903645370571, 1988066165513084494, 2977850697400937375],
    [5541440123987594748, 9591427865345548116, 9669088081248008287, 794484372090197528],
    [5717472324945572905, 6174074361583416910, 1577632871765737854, 3481129492503380273],
    [13325680800061527036, 12309078185183640140, 16763311912973755637, 1566110581857700361],
    [12249548568115988678, 11209261032218673420, 4940466595080791277, 771487592615259358],
    [2674544028287596442, 17248485300825939625, 10949481555690624629, 1023121073329425969],
    [11747515358778335254, 7464561602524039318, 12859524779717724390, 727145153511787684],
    [4779681098544026607, 10801352859288203177, 5187327735492849400, 309704060256086324],
    [15238782239290182539, 18305014652360812689, 13719472254031951616, 3374147316341246576],
    [15578969976403941546, 12537435997175236533, 14478162230856265230, 2277595356037893698],
    [13204649732309636058, 11785500951278913133, 10339958013586985354, 1955459727616805928],
    [14569030102282623316, 10385392823757262256, 8359554707346512716, 2608113925887867088],
    [12074698654214521341, 11618779204221940505, 3516582691944782661, 589852033284418243],
    [11157311367097653628, 14371626200785010329, 11766745241084052131, 3141834832237377712],
    [12733235032607510141, 9323601586081538062, 14895748692241263038, 1016926342461848108],
    [9859264004464829177, 11058394381060735221, 14506646442508249481, 3323282756208557411],
    [2582612150703885187, 8306177362261553980, 897928877326560533, 918639075433083910],
    [10956170673865248644, 8564036573374780377, 15445891645117163942, 644115059586624836],
    [2711973265794170614, 16656643648783866019, 5962640706602075203, 2481938773001882888],
    [17590887190243061952, 8924991201578943168, 13862352318032358220, 297054414896745259],
    [1872614578063478665, 151963239291045450, 9755516631272594764, 2539981115033014794],
    [17278980520978006631, 15212604883303952510, 4838520370261379088, 370619450042907230],
    [14719036969121305105, 4766984980478767513, 14864126913127613826, 3185439275271214870],
    [17523523959145140574, 3301704068096314519, 2341590068010164151, 819420160480278553],
    [12608605747964306847, 13939825926796408526, 14246908603479019478, 2459097707443965012],
    [2847753020822552945, 14842493287604615071, 5630649191723782325, 2654162296948548606],
    [8327608375789042030, 3984233256092441221, 4266911563483004824, 791139856424493144],
    [17393623960378222830, 8556845277389089803, 11063746623933562198, 3295116572797994866],
    [6556981464207204531, 14679551020872837925, 6266901575482294147, 2752996138607489391],
    [2545246976953366491, 15571854123925772603, 7520613325025670458, 2715526405698945879],
    [2268689995884986655, 8137678705750911999, 13876952357584857273, 2717023506413470608],
    [10140370558899107377, 16040958931821867185, 4070783410166728933, 2505483470326499820],
    [16097710549234583465, 4782418641697995316, 5748722374410837534, 159588883507037298],
    [11291816946150689618, 7290161082082722149, 1044034546628418201, 2969291899118471681],
    [17154880108210828863, 7344728179590740873, 7769584270863497050, 1075648365980683583],
    [1803399554144300973, 18288289715294841213, 246138044464968337, 561843230295672562],
    [2330968321100917994, 10414440925487288588, 17625909583140434097, 2502093891459445253],
    [12526288117101684134, 8362912079772406840, 9992675896193181808, 91505079800739868],
    [16646710225556983433, 16370209032864520791, 7060165441931734303, 2544652218228964676],
    [9190675348599428386, 3041910325904342697, 13456873213918960905, 3334999382905368224],
    [4990425590775788876, 12631006258972777509, 4007773506108580907, 1102194232115527012],
    [16582422522765043534, 5861473983963984992, 18047721925441662696, 2255525574963620325],
    [6047098222080324489, 18077495893277810065, 2765439401678121352, 663459475751375352],
    [5357278748647445464, 4894994898466515186, 5073755966281596982, 1935053366752426707],
    [1883309416397200082, 4002604494382115756, 15080032785222886426, 1617550320980187549],
    [3518572601742433300, 14256394187580425454, 10323645900473976460, 2160975567672505059],
    [13582610698040532064, 16633901617425400798, 12036492491914469759, 894114751296418035],
    [9586227146206078216, 6997012586024043659, 10570874657405218792, 1935907046324692848],
    [8733995415077984145, 17742211468904935423, 6633993672740213564, 60609538245954180],
    [15210507094558518286, 2809927191747993009, 122303601839491740, 1444545258862845613],
    [13876121165305895300, 13982005152139757037, 10500856908045162502, 3390148465756674001],
    [15619953150446111841, 621725405936757634, 3460714094183172112, 886900683506979925],
    [2865370493750824041, 10674917767472006754, 3932750800682271584, 1658717153232615468],
    [4158634352451534074, 17327208825304179714, 12078702696456144043, 3399401658749671310],
    [15476451516339742249, 15960447891634313671, 5788235009515645148, 1936609771979262650],
    [5638973398222657237, 3843419977431318862, 5895548160828353119, 680512758060564959],
    [6871413275513517638, 15736227474207349895, 10508251890877065022, 1443618183687786010],
    [4713332816877647293, 7821048273009846355, 2633126125869664571, 1614527264469018704],
    [4777309128810888759, 6593676141362790707, 11856581453418389393, 1422992746367173494],
    [1854369959592209452, 165389863918942103, 3465148226042280996, 531999173462682860],
    [1618443999406896336, 8490012754175994739, 3938620013027383472, 1546080401611773023],
    [13866024322801563888, 6616940439054472445, 18254911664339537644, 2782744476025532954],
];

const M_T2: [[u64; 4]; 4] = [
    [13613439442855361237, 12612317059679343271, 17010153325034879546, 463711907270265477],
    [380039182625911272, 2353060624420563571, 8611693173801816027, 3142750857801084569],
    [17686748653477138425, 13168698300709470193, 3167853822857717295, 920278981868324822],
    [2431048004232414152, 12531362618959840161, 11752828045514564013, 1329940993925894997],
];

/// The shipped additive-constant data of width 2.
pub closed spec fn c2_data() -> Seq<[u64; 4]> {
    C_T2@
}

/// The shipped mixing-matrix data of width 2, row-major.
pub closed spec fn m2_data() -> Seq<[u64; 4]> {
    M_T2@
}

/// The additive round constants of width 2, pinned to the shipped data.
pub fn c_t2() -> (v: Vec<[u64; 4]>)
    ensures
        v@ == c2_data(),
        v@.len() == 128,
{
    slice_to_vec(C_T2.as_slice())
}

/// The mixing matrix of width 2, pinned to the shipped data.
pub fn m_t2() -> (v: Vec<[u64; 4]>)
    ensures
        v@ == m2_data(),
        v@.len() == 4,
{
    slice_to_vec(M_T2.as_slice())
}

} // verus!
