//! The raw limb data of permutation width 11: the `(8 + 66) * 11`
//! additive round constants and the `11 * 11` row-major mixing matrix,
//! each entry a canonical field value below the modulus, little-endian in
//! four 64-bit limbs.

use vstd::prelude::*;

verus! {

use vstd::slice::slice_to_vec;

const C_T11: [[u64; 4]; 814] = [
    [5675361832794080601, 8403179272078432182, 9692439538697923001, 527676780465408755],
    [1775757101357945880, 13905455119187098750, 7550150135178806017, 474289545226116933],
    [127783581768523926, 4405270859941778920, 12900820918815849312, 2720650409281539319],
    [11527415293499744110, 3251949135550295820, 2864647163660975692, 2582450797010596648],
    [8766957523995242186, 1499535894504420732, 7709084319184083675, 1960609338539373239],
    [14484278442285627353, 4334556197460847669, 2790623819273423471, 2948831638984597092],
    [5444522097576537837, 13635084388899186958, 5175218480093644976, 3213426439710351483],
    [17190953482254179016, 7227384865464623290, 2541141813675658048, 2264869754654078885],
    [12313848567062015965, 14613151061300341257, 7863763216072466343, 277874178708994215],
    [729937339077167223, 8766446263337918107, 5160097554444447307, 1135808553766370731],
    [9089682816921873572, 17489269669026227282, 299660375475254192, 2228481480481847644],
    [8045073319415103039, 579087480806431907, 4590810485072351955, 2695613242600862772],
    [12527219768420737840, 6513279408565151263, 16053809871893187112, 2139119540454699601],
    [3353314698607024953, 6983580535616645986, 5536757057717894266, 788794555657836282],
    [1287661385781369884, 10905406258610456826, 17567230927749156309, 1391634626396372492],
    [11633657044753340110, 17496596673043924313, 12846475038786346112, 1833042000680672205],
    [415683226543883873, 6813938130134094259, 2637869501768956455, 1889556304103956396],
    [8528056405029778300, 5149125509015648661, 3248776770627286105, 1725002281441753858],
    [12603484418053471817, 17461018461835864279, 11200375741449954478, 760931332592060793],
    [14919327137529000162, 14395510373645550666, 6611828675911227090, 2650903582476304799],
    [1385442591688237013, 13396371638152385863, 15858489299072596003, 10139466196129104],
    [7716194553714129099, 4928693566921585112, 8130407538410772798, 2209944521730716850],
    [5425183003653594368, 10940614514370643772, 17142205659085698228, 462629760736904545],
    [4302055085687339586, 6568237794014148081, 3505711265838390551, 2225868543146449008],
    [319380783892703971, 7061498171355445412, 3014466432973299949, 2209380220337396702],
    [2889840809098635725, 12806794962143627384, 8447879222580762908, 1374592073013368532],
    [10425618866066975277, 17747526197977080172, 11108648357158446088, 1893095243280962401],
    [15695644280291497135, 10368825808237075800, 18043483943655698648, 1966398931474780857],
    [11770347989394119600, 6696040286251230109, 6606826685199333754, 2109324452377631120],
    [1490073677450055311, 14480150151925877492, 8384491778465241996, 2744183782224396377],
    [2336940259402674958, 1235422743284702041, 10669815197888974151, 3131280283433944523],
    [14648195492967692120, 7928009844466975922, 14815892592662018933, 1703845617700069338],
    [12878868166339302630, 6843230482942804265, 658572740582286656, 2780873685630849599],
    [11456517989674636425, 15697686726049651472, 17991289046595132728, 698192994057124939],
    [12487533000231754270, 5365416836609383957, 13567329405886159610, 476283472044827393],
    [8771054630440616649, 8258720898294156868, 15372453053310650553, 1880662606881796978],
    [17501479651070902919, 9635180410011021005, 1408112354858205708, 1777189930015049267],
    [5874614697096547248, 5081727952867451480, 11067874884870208225, 3316149624893803083],
    [11972115426776786947, 7463743144919246254, 11423676006336183234, 2192410890479237309],
    [17111933416964245853, 7019319908296620233, 16749359903936181022, 657687356010158878],
    [4156526749851558840, 9156045890390784909, 382641367371659871, 1453610302774968152],
    [14873052988111195521, 4921221017971747467, 12467075635209265522, 1448168794557305821],
    [6691628233586148017, 3357812465451318654, 7306333606933484649, 415981475718890730],
    [16785394070847708639, 2183426226214483625, 17011904627365313632, 1244229559212024094],
    [2423456768856325877, 2572305056536360323, 12705770370960650354, 2429432174881159411],
    [18015296346051409281, 10072738433559656149, 13575848595572033460, 1580596115361991248],
    [10102858361250168809, 18327454787245336883, 7544536708230865148, 862590063932626703],
    [9256879979117164537, 6333583720181110823, 6991943335571741935, 1765956491596314616],
    [2699137262193379790, 3930908606681796628, 12513320855078705029, 2330027262100034428],
    [4149058045846409219, 12734458678071277915, 1623625530078645734, 1853311250012337851],
    [5333840071467806118, 4450046411833351997, 6856359391218941307, 135556139183596749],
    [18035785984776418391, 7399864323205974994, 8234948789665450209, 183396166787338977],
    [15346895557267346822, 11922183391817468073, 14052174055526969521, 2283835146649391412],
    [12609742448234750009, 15548196854162779687, 2476845397651515068, 2575270645434406485],
    [13969162251185983028, 1428752407543832228, 5631889631037555027, 1020868969122748052],
    [8252888155131555082, 884957584695723739, 14016663810145503399, 3412893251885546853],
    [15522988739002268084, 14214686195900409242, 18201102115894833434, 3410844401606806113],
    [1327034283157243203, 15435433869392301374, 17093921149406869375, 1767767803862728190],
    [18207122081862660226, 17910708925142179931, 10879529426951811229, 1326251604028701722],
    [10644293788096723202, 7812330161287323091, 12849814491769879887, 3046052139601812017],
    [4874986427142787862, 9355727026390469270, 6922480380417305934, 2477023346880250787],
    [8547662959327092971, 8771902310484255507, 8664737448832468962, 2948875086383856417],
    [17555367918036502960, 6308611871433541358, 13695878955861042288, 1648657697488221118],
    [16352768047318739925, 15021728107895293684, 561673697658387901, 2488494138173506968],
    [10241847738050556809, 11158073214004046302, 16472274113557557776, 3293732693564634924],
    [10299166946279135064, 5837709139842524100, 12184211851741395995, 3444754131298883059],
    [4925185212093715887, 12510865829802900901, 8105408723686036678, 3199225916599892801],
    [13183556200512655358, 13946117953721231096, 46855737918825304, 3019164529865143772],
    [16006032401472713411, 3882865706263219029, 7257509737061673458, 378884858287082990],
    [15823265021164115771, 8287514702312771510, 8252603889855927504, 1193047645719854257],
    [5308026580689752398, 18375597781880821905, 11913112214973268879, 1151161960005689753],
    [9577286166048365552, 4723567999352704388, 13183561425768771456, 473225144076218580],
    [14860686678716612761, 6754805246163845573, 9335923622481447325, 3462489071804891631],
    [9008000976416400788, 4806260849324658581, 1817192298618499299, 3024644928150954752],
    [7279620161928115196, 5855967390346497712, 18102663412475795151, 1503654423751076607],
    [3504834469111128301, 13283348850727832678, 2927282465111611870, 314391964531941097],
    [9851176953438376096, 3615610770227739887, 13351728097340790870, 2197163362329282222],
    [12668441783973352347, 6482481248400478258, 6538834043510035726, 3171448778186239592],
    [14683790716707290699, 5659277325193158485, 4694531233932407303, 1260636698818536258],
    [14605307255997176125, 17458260463338494315, 10033028884623279138, 2992897153361101356],
    [1460958525309968373, 6268408055753763855, 18157256324687632854, 990411013317338184],
    [16335595051012093277, 4611945831376234709, 10109701320294088656, 2224569633900988588],
    [9548753160884991153, 4736050753494897068, 5934022560077821914, 2396766848669398589],
    [81455292879985816, 3537708513909285134, 6531629534290358558, 2607022018445174147],
    [13733414266031184250, 13741023062309206599, 9933458140784856533, 2960356997440759049],
    [8668626443250597131, 5794492226357887195, 18125235993088663888, 2725290566966848892],
    [11735128014617900486, 2743403802507774186, 8557242485154449033, 3396823226320378889],
    [4175423485352514752, 12724481505488372000, 8115038138670613999, 825348992131763838],
    [15397162928010146768, 1379657468421857156, 5675391371913752422, 2760418501990893259],
    [3777941686819933751, 8849321917634658011, 8602669173732360206, 2038397141120145464],
    [11095724774558230573, 7902878711465083600, 4999820382405440485, 3404847062564804782],
    [17167194491852848128, 9607775593383627751, 7145634993303188753, 2761194701357176534],
    [9661301312123256495, 16503266813415467777, 12323915169512552963, 2420952739702624447],
    [4160718004587242504, 15648407256652590481, 66900627821567760, 1789270909899309562],
    [14974577223999772620, 15153326635129182475, 13349289236395927717, 405002657062264518],
    [1335412173172720978, 5470369564390149717, 2190552457610289121, 1340490909599309378],
    [4915536545884970774, 8473498782296150779, 7737862059688380534, 3327032358476068063],
    [13269759485125298633, 5004333317343823821, 11851660679556857541, 141926597254885099],
    [80059173411082123, 13294088996397127965, 848733365701377689, 1260367758995022951],
    [2530406804871510175, 2917682432471976699, 16056830409405384815, 1288254770291203831],
    [3978868902480024112, 9908137796436211398, 9728023919275638614, 2719975038978940412],
    [17833134685644418927, 11825625587807639762, 9065643781457416912, 1248611732823607457],
    [9228987841295965055, 14834828868627073388, 346471043153667589, 296091032856755056],
    [1255243140138097981, 4964844670234880410, 12581307221239899005, 323368318314653188],
    [8397577663835019278, 12572809059879316623, 10270495790890844781, 1535431010250163931],
    [11858803447392081442, 17476387216359516713, 18085620593276186781, 1965889909379835480],
    [11575386858837297965, 1832036296238686188, 18284495585146421378, 1358829470257072982],
    [3705871798666373520, 2332011617684460992, 9119470897969642235, 667700700185584474],
    [7333269030300596020, 4911660877301215553, 12244080769159743054, 3349208052598288259],
    [12254675322809936914, 11318900431747801853, 2844312786318885609, 341324117983987149],
    [10478473108927546187, 56358674764550385, 10366159201897626276, 730439335021084998],
    [15156991237553581172, 12594577576856146877, 12119285504508433048, 1594797895674869871],
    [3786997158752905418, 15010661363762423321, 984700735429012640, 1967593396422376941],
    [8250050255938307993, 10896656485345912536, 11601035171953940349, 1906041158612831900],
    [10677722193608899986, 10103397110057396797, 14772564845564852228, 2965621352216286822],
    [3539825084158463448, 9343021139747409825, 7371286434278546724, 2279791013476925866],
    [17649345393535143409, 11645422831432655807, 4998748247196253881, 3060311677790282522],
    [2173522336127371353, 2286402468996686561, 1309821222826421393, 1522765347487305886],
    [13518166287799456087, 5505501181694587928, 13962762291404270457, 2606167605379890137],
    [3248467689668208509, 12657879227853516001, 10481016289053687046, 2072514856740454219],
    [9915319109210960735, 18374979706488559204, 10077745876958219469, 2575259790953787213],
    [15403173109373286668, 981596476765725500, 2301243935337480787, 1517620000451392957],
    [14623013424358912122, 14353217746239153083, 4594499933057866411, 1780114481020138440],
    [3074864090029319832, 3340026746008074110, 6955981017106713487, 1421803685766461552],
    [8922430232267598523, 13417574844033185737, 6881589189113628480, 1925459636215821993],
    [16781344569815162806, 936846856842466413, 15398105589771693221, 3269570510551091960],
    [12508829377953876937, 10892597380696847308, 10209916801397601160, 829626660446344225],
    [18130758550202691130, 4947556049846526919, 17637024638983647898, 210789235240349420],
    [12471077872193345205, 171118987601647965, 12887027764831769481, 2546659683901959473],
    [3865427421291489174, 14546474597630343784, 14394846857043210351, 2076081040119455240],
    [16782302515302551507, 9832435800509285237, 10606127213666825608, 2021191771922457786],
    [1186504043627815907, 14064787542729553652, 8867552275786334609, 825255733263934455],
    [9548945635689285170, 16841264769090826739, 14138233664009554748, 308239014117231513],
    [13353758724986042112, 11795956932526469541, 10577874082458602350, 2106336932398773342],
    [6719219241635744992, 13646332354357811742, 3057521619484224407, 1172265305607086680],
    [10346861015926641972, 9239858906412736470, 15047383666686875589, 1734971221917030660],
    [9430396554511094350, 6487682614635845921, 8631517892475655726, 2884578854390054885],
    [2133109543463108625, 11194938805399450613, 10970275666709084533, 3290232066910231151],
    [11524136525632045673, 17985041902990081948, 9093934565768622626, 2376525692361872072],
    [10287272752252821274, 7605470764437589972, 1838175154612788034, 2005402481991062141],
    [2821694497942529645, 9573810917072001760, 3538539666527810070, 1391914321793517122],
    [12140242654867750572, 15550317727175334932, 755658998968659405, 3215047163449125993],
    [2914582703094625636, 9613260064435397611, 6823165754390787998, 1887459433197513193],
    [5710199614189156360, 17639687129229348511, 6612461705961652336, 1878630179905822373],
    [4132351673232322422, 3951451460773098116, 6818682656778543089, 802766490240927975],
    [4136415824071766804, 12807708126678047349, 17111925832512669343, 2054196546360780216],
    [16799049154137174896, 3838174443861491581, 12609919334815747087, 126031051988409676],
    [17102123462627958764, 7538214815920629214, 6617267413793370775, 1587114010454755582],
    [1905308098560721718, 15396069958544842317, 6094568475482895716, 269545005535193483],
    [4970671490759029442, 16811401482024710821, 716062910021458630, 2092972695532152742],
    [13334069003775560136, 2437829396833370866, 9502944523544833612, 2371676115601106008],
    [8210018052278115045, 3683752824013319770, 18379630065222674849, 750375732597373343],
    [13147632387281607817, 3631262181295001861, 1116428729582554560, 605673747693514531],
    [7637113847547216900, 2865081815453786684, 7779717248603650097, 1465363096659430645],
    [11919410888280012228, 8069924161318700761, 1350551887538789696, 3137803247640632650],
    [9059302946038065110, 6821964997315241466, 12802156619622467296, 620306862513069456],
    [10402614744764202899, 10309647516591901746, 2759781008301989944, 2862837507513246842],
    [18344988138431919904, 8920447801448267078, 12359638782242114832, 505598220094845366],
    [9606009799738441932, 2165566700805717615, 9841268943664446985, 357417004672924536],
    [9309029068244648534, 14210190280965617674, 16375118151880771201, 1563311888065359473],
    [5969046422152861043, 9744176531640836033, 10534175900604003393, 1196555936801521595],
    [8369653946396764285, 14241359946461251370, 3582243004636486862, 1083051434706316983],
    [11688992527723480340, 4259971711132035017, 17801203809927106701, 2095091772075951209],
    [2919956484514351888, 15756221032331185701, 12864652273674146371, 447473325929939923],
    [6821713791899412825, 7028659653209441931, 14198639077216933045, 2005388446517477620],
    [5357140928307164573, 8566443277367924750, 13030367244167959881, 3321983547271099202],
    [17948299846892516021, 12180139659092662957, 11851287997253346505, 3392769344941487768],
    [14286366940559791398, 17888679936082959727, 7403857981712654727, 2827621707956688980],
    [15486088895817189922, 7591127097976062075, 16964232836486766928, 2022599390476253276],
    [12989753270087349081, 6022660375776619019, 10444020944067861235, 1630470797576694960],
    [3030070741157783731, 14879975166787215429, 10241226015032420947, 2404080349587808632],
    [3306819345127825185, 16798373164363739680, 17116656165157166841, 3233543886087291033],
    [2938566807010022210, 16449928060177393788, 2135720649797485735, 668463391061175380],
    [11987487309641973312, 6668137340143608999, 3186162341137769245, 1122954876561625052],
    [10093381973781012100, 14716416668525431323, 7031573475073111578, 1751937301592099611],
    [1057295475371543349, 8939220033110992606, 14329530068936617106, 2654145535248990107],
    [121776532933713175, 14555716822300675026, 17215032737048821165, 1195940515111318819],
    [4140751869808753800, 2435601884884829272, 10429290221166214009, 2641813924768450179],
    [5382444996034348659, 1760996819538508622, 16918392561491868915, 1344321235238967744],
    [18423838256676301590, 5946018736757920252, 7365175327470608508, 955517309818858218],
    [1621294376758823594, 10596369518613889595, 16558090288879178512, 60184010351278580],
    [2498589177803991508, 3028526821999255808, 473810858671718473, 3386283007755095621],
    [219153374313691187, 8055482956551774179, 17896022063200269659, 2144687885141204004],
    [14389269649103927140, 18276564729771839318, 14989106015837312039, 2607889120711894146],
    [4791907660650933873, 10768994833899468028, 50198962268982064, 3083013486113117410],
    [9394781868089852085, 3855658406660526227, 7927113087100926246, 1637149261322791037],
    [10678306740567157364, 8015991908079908113, 5937068213289407607, 3017310595639371295],
    [12316950544597092019, 15536801292305226839, 4250508443845227430, 2706815508004217103],
    [6903043776978040134, 15848621534658269334, 16567129907869821661, 1477450518667784001],
    [18199102126166832568, 578638860113258350, 18080481801152100017, 3176323037186102491],
    [2692264176011862705, 12025199300469392154, 6298987442080380687, 1744002249849645523],
    [3228224817773029171, 2293771214175493102, 7292894498361005304, 2797690164016182179],
    [6264909217960464558, 566446319448634914, 10280614791852027415, 2955064010921292175],
    [15779299151409158915, 10671117547239304387, 18103813498885861193, 742212745398775112],
    [6011791206275254020, 17025901847242661282, 14720633293342867868, 2287478072384817289],
    [1441254791276185190, 659573403204511527, 8659226838203707811, 1956517413822105142],
    [14430918711883435753, 4898333950074987325, 556395650228156390, 648322567775971464],
    [13175905896996256804, 10474776961869025953, 12056150857489193, 2452140940716252746],
    [8003367699337404149, 7640911205543756260, 13194713500615276441, 719644097867494713],
    [17236386182439344335, 9144369039716879826, 8214357905562386116, 1831264937318609166],
    [14073452282254196613, 2575491378061107482, 2892570787191928511, 555734316144875270],
    [9278653598799741989, 7345846432574673999, 15721087863311965190, 714291459703315690],
    [16277607698574650615, 10370329608644695366, 1383859722789054797, 628057229702880048],
    [11896784674130764154, 6266352953609453483, 10659052841172078496, 1816383402840763966],
    [2061419501260375056, 12491797383645213647, 11304540370006131973, 271519293143025683],
    [2518184849101891020, 2957188302308249346, 11309269498229544512, 976005083805473642],
    [15151275824540211662, 7321153288264190943, 7707079767974056317, 2167570707456096615],
    [4715756378372307678, 7107384190836600677, 1917144876600648972, 2415843018055774505],
    [9862432792868200853, 5410871017288278871, 6081990887649785740, 533918262527216451],
    [14057981969074780634, 13691283821798850844, 10008131668946260487, 450178030262537535],
    [8083842089851188255, 6142545741100956045, 3707022048373958131, 1693490745005240411],
    [9282261063102365074, 7350249057254071461, 3652380528253593518, 2734772441879279846],
    [15919934046097241813, 17244034061807981947, 14873105795075912794, 2482790018983724619],
    [11540672429315856129, 4589676569635040104, 8902900079765239503, 612181219759323049],
    [9527272416663695806, 13742228405449395999, 13346322340408668906, 769764754998888573],
    [8055667997378394773, 138927670095847324, 4930385485564226045, 1210887888827393595],
    [10505883530867463374, 6624178497005363177, 13136390846054943245, 1686078717844191787],
    [1685558044098081829, 8765157073062572470, 7541172729490760209, 1056954023291086636],
    [18068127651301378030, 3420876941352609735, 2298964595009712849, 3377451925839008169],
    [13777925435240000705, 8328986013987593632, 8914271562242789943, 2287953093993372979],
    [16434993221268600930, 11435370175696285834, 13750990283875415658, 251040454054100444],
    [10701051327508383651, 16569697092901803542, 8194824614487274463, 1693186976148127142],
    [3923116906259277322, 196011652686425332, 3079056113819255435, 492154156918919212],
    [128460004221083045, 17532575339712337, 16674544538302243024, 1377354692266403667],
    [724056037554736284, 3725599836099396481, 8271309726649573999, 2552599129064334996],
    [931049322475501554, 10859952348632454003, 6415362963791853622, 3452000706303170132],
    [9864953197267135857, 5948756153124000341, 7233763207980491963, 330208796970774509],
    [2754561830385451908, 17519888461590384486, 1766391504979241360, 54852115972459949],
    [12096577743685300874, 16307886907977053054, 5847178174706724758, 1309536089374230829],
    [12800200708236497221, 12955236432545401229, 9413162385666631679, 1287401950733734116],
    [16148703827180153371, 17170153040028515708, 15305626323828518258, 3417061272232868595],
    [5169575376334747527, 13673590267683572960, 6854882267992071689, 966610157849966531],
    [2380444191947893548, 10637640059548640834, 10037397760876982450, 3349657861096366759],
    [5722187340933532581, 12929782807667619399, 16051975249292481471, 967076657886881866],
    [2922203171710428564, 13257715694011973921, 13200414980721826575, 1315118129314718992],
    [9228644245089211515, 1673123892278905407, 9721058996389398295, 1520873961190271357],
    [1246647621769973656, 2128150282658269181, 559874318026244567, 3031932382474389038],
    [3121621683723069894, 296552366312547213, 8333621231921182433, 2723633184029788696],
    [11780885140991280097, 11309669012963431656, 5126135769995756658, 2292757891524340793],
    [1998623325266479931, 18331240037272927411, 2482606352857743595, 803706084126348493],
    [1124958750808741375, 17370896559451730757, 18018182828933260469, 1917993842643825318],
    [18036033447411428551, 5128601923504734145, 1147377122258701599, 561394476703347727],
    [4684876039564100781, 7247693259516423694, 15750059123949920694, 3448337073847501449],
    [13227486786783296116, 16779426029896468306, 3962593294568617531, 1535019931109557924],
    [13320344527299044590, 3833336638790235147, 11586361706211916391, 3203532094271885471],
    [5456584029913612712, 4605747952155345067, 4717904379376636630, 1463375269768356607],
    [11344168448098191491, 15076047455581113158, 4004024743173436336, 2505845741243275286],
    [10743196070401709979, 4492018003984308016, 10555152884958855730, 2867166561208298634],
    [17533566904168824480, 7715680864214761664, 2612610801255560144, 245891213087205889],
    [8648435927039671610, 4090795132100565097, 238748733824087089, 2606877317337527896],
    [13652101638522982130, 14581556822104670472, 5664673866650898793, 1820991729372218402],
    [9576119551060331992, 6214907603365727462, 2243876741977045392, 1045462527039041111],
    [12811885386982775884, 2646155501590157067, 13072836739952359527, 587817216446576921],
    [10766377335993194064, 9820844941449026152, 11865036125357155634, 150732214235016253],
    [1419824589114280886, 5960347089941298553, 9902140493557100521, 2831745245530107118],
    [5276071287115328227, 4903959376163972384, 8617995859553232159, 2869731337984369135],
    [15423766389562064762, 59644267768653814, 3887482315609072254, 3114550083405628715],
    [476985513150278492, 16012131162619586464, 3217902909789197042, 1973457124592556233],
    [6913258699510026740, 16748911780229374579, 6897948395014080884, 2487683946265375141],
    [17636263135521398442, 11899561314825264280, 15870024731739476323, 1777472795675125985],
    [6733427199949603674, 4072913364230529902, 1580265135467513600, 1136027183593054119],
    [9137142376373234226, 6182618624622625143, 10547055198099557589, 2083360171461238856],
    [4518488109779318567, 15049979138197459178, 13491286003866784893, 3325558115630408629],
    [9244459011847214069, 3072293281278265745, 8050179187177052806, 1518111632673659348],
    [11138219651611870102, 16601794931644709873, 12285424991267287568, 1775097785746256520],
    [4394667622879747195, 11204885353919561621, 15851488581812757062, 2510655699437756022],
    [18242346782518442750, 11091345278657238280, 8996556269370427736, 785721216445234960],
    [7468620671439656705, 1423627031494430409, 4576325610622262750, 1661914042671305379],
    [3933580697646221918, 16271085632987226780, 10893508411496479285, 2774468814107032555],
    [3090160455437457113, 12771383576600588861, 5671047862764169815, 965175123440720952],
    [2589656262679419123, 611007820351517177, 5105825515911807390, 786665811866091670],
    [6487223511928913720, 2439571330880859256, 4916738583573086533, 759470969631117286],
    [5487944536068092860, 71367144631779961, 344558320522142014, 554281000045354722],
    [16261934857677164213, 1243747196452541795, 3358249060550664393, 1265437238393070048],
    [2844489435181281314, 4693772037592029140, 477064539873855327, 2834089074027299315],
    [5368522105610689986, 18038996024712807106, 9472888573790248725, 1802390517102053140],
    [103709925171904339, 9796388035459018066, 14930755143931216033, 2461537100135882597],
    [2600855924332330069, 17513955184996583121, 4415709387981302054, 1197570206680993487],
    [15301655133229062960, 9822764699548970724, 17262666854312114288, 1594620901421077705],
    [4238297394832562464, 4807166993821131168, 10001304914537467145, 2594705220322339584],
    [13030456076958467486, 16994179646306975339, 14351596545052270499, 2626729724934227686],
    [6004283887429652843, 1714481064452129407, 13844395530141539562, 2127531024750416701],
    [17658880077435123630, 15867028719163724609, 9726669885607961855, 878561782608433992],
    [14633651751711396558, 12852091528540134696, 13006094473847467682, 919230458525436177],
    [10063653942400227756, 12055348040565681470, 8321290911296134187, 429182683178900811],
    [10118321225194546263, 12519083682224699129, 9669560879933012358, 413624060583585575],
    [15989453874095046962, 8938294364522069020, 5662973779229611311, 1440109606364938735],
    [2790986336801541891, 8541164305838324460, 10727382016495009320, 1530150242453298815],
    [15082156225915494680, 75405029144940260, 14792497832329394932, 1656477411268897768],
    [5784629535394287484, 18161503998065545854, 13385743676312455472, 1536912541034466885],
    [2405520072334493121, 6608631936617309284, 15812059180672103972, 462175852701825542],
    [6185865584105270390, 17770525521646223486, 9157202402654968926, 3123210691752159117],
    [8796369679931967251, 16675669121413262352, 4577249624247881971, 2200708917044359974],
    [8967493370525616775, 13809883661224478089, 6369919595877124070, 3057346828386942507],
    [18024939381752133696, 13620693708580668067, 749745947815551285, 693224088323166061],
    [9150153206764403703, 4431585614276071505, 6223252177506398843, 2197049496962417171],
    [5149385296310986169, 11030496434789598824, 7989280332346145640, 3346242675082196312],
    [2698419186848700749, 9398263047057827656, 11115441568015549883, 361889700390081173],
    [8060933332487099308, 9400429142938316341, 14188632430817909191, 2797294547748916607],
    [929616428136222986, 8907942013641936100, 15538765452389290830, 3113176745308254843],
    [6660302544801309012, 1073847081737752647, 9656295853522834347, 2181387551850688736],
    [11463251410331306432, 15836567207524747102, 3796591803656253029, 2590663750895913300],
    [15602920679246799267, 5242255698431932693, 7991249859049758606, 2129127652946728681],
    [11611541677852802347, 821396253247899182, 16108122389376287859, 2170105362794283820],
    [10471931905703253063, 11031441556256952223, 9427184900388158178, 1245219097682068961],
    [12967991123329847481, 2098900704346394542, 13811305899177021929, 858292343262952556],
    [13097678739478455287, 5415138691288973411, 5312502758781778263, 886041048674542582],
    [14561580074508439022, 2173111979029789033, 9732660690346830671, 439536507243651672],
    [15429580766032135069, 7466100949724427801, 3185355107010289529, 2227323234907766180],
    [8275078904178284490, 15980661304513247303, 5147925851322359631, 1272921519513059860],
    [11695045144239128152, 2118581279898594200, 926521755988569846, 1891976333756015345],
    [9967616968124096860, 16798559116608869007, 10815555493318807564, 2639841091648469588],
    [10299952442476472178, 12839637780985592863, 6461896994548390113, 463931007003098538],
    [4156179933554654259, 243144576026171457, 12805075079597807371, 3393717766593165252],
    [15645441032713242273, 17491558249975962310, 16962467746926103480, 1961445268195087419],
    [11651178335084790782, 14277046077755863011, 14128815507472291976, 1077913508359217437],
    [12036573856970614376, 2313254383129001897, 867301656327192762, 1831336268721897469],
    [8464217730368972998, 8689875120241399990, 6235854198911278423, 3315489499426156518],
    [12980817536431182529, 14301976196708928579, 12317549990406158439, 2559095631221693846],
    [12042985564101295989, 10548401341235924810, 756347998890026609, 2368379750846774944],
    [6796278704446806279, 12796990999805072854, 13452592159356467662, 2241611959119838093],
    [13469164826442688327, 17402242065960300037, 6710718599092825608, 395065427831380283],
    [2682474979316615765, 12361005910794458370, 2689484061963121512, 2771819111600001835],
    [5463693829272284992, 143771750424516862, 13315855540106463121, 96999549816422142],
    [8335590175113516825, 2541900780777751541, 17615144864118040852, 3041820485551219633],
    [3060003751274248717, 17447640664075809871, 3095071211581132250, 1075664803455500452],
    [3665835477223019301, 593792821812253978, 13130652074470611650, 3168370218852488853],
    [12491198079991646777, 17040173650262334040, 5076429526916162499, 1606202423185588678],
    [4572474922215446334, 712638967567671180, 887682165976697222, 2328490656128344443],
    [17849855839571755894, 1207735307040519377, 14961989028359924060, 2242296146215697802],
    [17509508118137113684, 9358888201743201651, 9314455265825302791, 29722181313609077],
    [18335102228316693395, 4887605355637461920, 9881209774307806666, 3393277778459106132],
    [884588980696232599, 13464589628404563865, 17740029895293162921, 1604743726331117441],
    [11084298394430011564, 5798973620245176126, 2430844605453128148, 224976196784709617],
    [13781518475943310362, 10217673786580807454, 942540662397237090, 1239419786517541908],
    [7775633527496673555, 3306250609779545267, 7306709070515725000, 151066109635711261],
    [5075662677007219761, 1764873012088061504, 2634104053525070489, 3386647780716138356],
    [7366826414008541462, 14233456545878697846, 11003227459100744425, 568932640869630539],
    [2558475285871730609, 11152514560859932040, 15839293523417182123, 2989862077123041235],
    [12731151168443857713, 478997557572641595, 9076987704988343179, 1481709184322733516],
    [13426160436915455311, 3428043413372346696, 10726327680257918226, 1125471243643647245],
    [10883825360777411464, 11593457101066201729, 8173208383111652010, 1888443820306502323],
    [16054839571714538389, 12088442089868328858, 9955555975460148303, 3149841730082754373],
    [7045244600874674546, 2556430906077595107, 16613508185524062641, 2280813580013026881],
    [193300538317695043, 13034309808600936721, 10804387540785580857, 2313067430592099815],
    [1955974717446950106, 11066525889140295266, 111535304018099999, 2473524181355231994],
    [9882772859736808161, 2647586071722398113, 6036710798356206994, 2083487417987823088],
    [15629055520548533985, 16313281370835829263, 10886054962468676710, 1313593385308925042],
    [9396225950282119589, 10578497581626166703, 4923136700651912143, 2230859057032624038],
    [14894972938282197921, 8082689937070416702, 11224777772629030334, 1867900333128378159],
    [6184719072945125957, 4607319271694591628, 4091991606417404339, 2604847243139688655],
    [14650403420830951859, 14770623529746580239, 9338231299506183340, 1021343361590876987],
    [6812345391103961838, 3229635055251146895, 18077229160167151679, 3348384758345669475],
    [8129942219414841142, 10899451166057489213, 5190605374978790473, 1809501189397333694],
    [3238755459508935012, 5815424813151785835, 14133194165885206920, 3037362437969710226],
    [11174795738838995184, 2550311916373614230, 1658493478528686351, 408256562175921740],
    [850886550370590853, 16012636750441734577, 12420256500767488956, 553014286627949959],
    [13614619912485047305, 13827912616199734272, 5514071892148936679, 408310952774990864],
    [14328819102780972505, 7289077674492785402, 16818278732831156921, 293192158243586043],
    [2834236076274535710, 9668295403736970272, 3012618226232565439, 2168015389745919709],
    [2188577138625637236, 15142487864923107597, 3350424336351348236, 3127161883406230411],
    [3940856883897991455, 4377405151944594203, 12813828487862277297, 2452467820228130663],
    [8506857880167668148, 10513586558540147380, 7911660635906081591, 1929538051681312733],
    [6194319247724056171, 3515390467413446085, 2877170599391459398, 684706534493431737],
    [748198141377596782, 18112719433302149949, 8274092387075101755, 2143151549154867967],
    [11739700016288500120, 7540221532929602933, 4486215716760851536, 451137751654114028],
    [11888585183426922219, 16376759220376696519, 15797915091352869991, 2618299822037563940],
    [5864188095167460686, 15880432778168766956, 580436222693280178, 657523609934570938],
    [5282010335286828622, 5439377409248655835, 14936470411646342514, 3053861477916224826],
    [12177804516994885836, 4369677886366480813, 7840433765126238625, 1369805166533129891],
    [9939052122450449067, 10789568847316095039, 16189502750868128071, 2130270446698919259],
    [17715303425785493360, 10327380668544975138, 663906819086559878, 1109881752969251773],
    [15605770757034799729, 16844395355745264924, 4037336773365007068, 1172523752901552333],
    [13988254250123529003, 15959140509663456310, 3312242311766033222, 2942883517635736413],
    [13035073172456119633, 3872705669854347067, 9404435689849652335, 3252825282034955055],
    [3137749705421024929, 8975443249021448380, 5903581959192615098, 2712461968866239363],
    [5009362522707946461, 10674650136528595372, 157761788323602783, 2009719064707699860],
    [879159522165862922, 15065970572549522717, 5346000732752010570, 1974805698957997441],
    [17880878343560402370, 10448962982773760071, 5327635855714540645, 481156321888210503],
    [9432849983018975513, 16565960825279687951, 15989976926204332161, 741830085678292915],
    [15624265395647892627, 17854477814596495569, 1101178770039432207, 1059657853923088847],
    [9901635858043951486, 6798844060515803434, 8605219727158042648, 1901744045612458703],
    [14892870051315323585, 4502521014053599099, 18407933354169742959, 216951552517202521],
    [6314365244603115340, 3412149953028834371, 3515581337940474972, 3177255142894450998],
    [7024068369016001996, 15051311027126095609, 15888652879636355444, 796634496223273539],
    [2053345634587189947, 16578763918765984051, 10176285255270119606, 1341636441039056606],
    [4934921045035435263, 17208286466926348400, 7477162800240130134, 3233206210676528235],
    [5790731692513064773, 7011894062097668052, 9019114714563093554, 3086355670794174862],
    [5142240064988156406, 14144976727743947005, 15667719799042056463, 3074919868410639802],
    [11252756330228556427, 17435523549735615900, 18297396428185646465, 1721027286030790029],
    [13372469211289236118, 6782172798055081460, 10501106978604348140, 3375833064302803360],
    [14932653066923429642, 13911833915635811785, 4888645588644752595, 1593401519350081172],
    [11100721511856121019, 6521420993585113917, 5171747305704988445, 1819168891469168901],
    [2088056403339048929, 9719553196019638052, 6265920992324036017, 1461879369634737723],
    [11735181380676855762, 16713345935762004092, 2314876768493726558, 2333125164024322865],
    [17234718842505702174, 7456083483391428424, 10848751877949183844, 328126017639771216],
    [18035185638654276616, 1446570843544404930, 10495678173441942370, 217012713186541293],
    [6953974297899798171, 17118507006558522888, 582427744334579680, 281502626166431525],
    [16378323852561773632, 2459613518825733709, 17515683227369206435, 2041424176892166988],
    [8500593942408384751, 3355713955566571316, 5033140189438275198, 581541040466878825],
    [11930559736002123875, 4096228873116124074, 7548562179373054162, 1370860377376751697],
    [17414540710958548892, 5716382538246106142, 9006631058549268050, 2587798323207286979],
    [8151171623354876862, 7238153392909219988, 313550636576870955, 2907980290316092299],
    [491319104012556364, 10097713347087923528, 14429201133436071254, 2691461483408925184],
    [12673696306947659835, 17839104871787649562, 4748054894418913783, 1023380575734144727],
    [4954201927094064278, 13977408016122193372, 3621553456581778991, 368522364757252010],
    [389331136035238216, 8856761037898951117, 8657062331076243644, 2286349572177926023],
    [9399636925695847549, 3841752025515567734, 4340859099672188439, 2030969584424107301],
    [4095172026187905366, 14885045870539987511, 1749461207350471154, 1546819220203762268],
    [10168748425458173943, 11402310494799924666, 15975279423419997918, 1143666350557331524],
    [17167902390102132912, 299507084117194120, 12412120546925161858, 534213456039930910],
    [1960580454029650012, 7903755864503333967, 3816254829665208913, 3398545708814558891],
    [7933985222514238148, 13773477358867791349, 16000161470703557333, 801007758158449462],
    [7079272701248375588, 15855910103723030483, 945061628304182227, 1706539701378381805],
    [16166690395811255425, 16632688285736497982, 2529491645097859446, 1527072849260997870],
    [6560540191115170218, 9234557273586909646, 8900473143046829500, 3092040969448903707],
    [5168934001083505493, 7185468161711146871, 8967757307813914814, 1117317410265738955],
    [5433278628617322510, 1536070301033931391, 15343168730972974517, 2261514592439686894],
    [8014697535605544373, 17300795350579806162, 1441306561897805328, 3447920407406316852],
    [2868029885323684689, 14699994568566265202, 2378873346816504423, 2779513848504868365],
    [2702790378681376832, 13036042999720102254, 7530001936759762997, 1137906065009234434],
    [1104122821498802636, 18086237923015419495, 8738107438771379080, 1906196013721438269],
    [8797284395602575875, 4801329715029236590, 11726117452312700156, 520827537497108146],
    [9102092884139956582, 17480239253280622281, 6710744562454650563, 343967745071999816],
    [6790248542920738858, 6706309451904098046, 6650584873157779573, 2105444565610904991],
    [13042936831878723921, 4757198070909297329, 9863302195827250428, 914367884675336496],
    [8836068027695610395, 5406698969764235775, 14149790920414102845, 1616430171900207059],
    [9434513977472052956, 11273108517216877293, 1981316047968527678, 248440969016063491],
    [5290269625422936884, 8820140978919708614, 13130539113826681237, 413598143730769094],
    [15399586085702337051, 3048502335398878247, 14265689598834773812, 1459580905172112220],
    [17952080062004830666, 6862895445595858736, 14518498648558438325, 1040305990759190332],
    [1996189038382902606, 283137673513321141, 15247428758438137436, 550260869934044439],
    [13833600401645222047, 7114245768736906775, 17725422787907592894, 532810730897384308],
    [13414308543279265010, 8537144314728368837, 18036180011071871489, 556932079189537908],
    [5833283699856413024, 12697516524679686131, 162975307247181135, 878865248686564215],
    [9897120423699759729, 7278602202473061211, 3716458756771973740, 2422325040148697441],
    [998310377488233278, 8523237539668560628, 1949293537513177053, 1059107186075563342],
    [16241646258829813738, 3941596491098088508, 3231730029662193002, 2523626256625294421],
    [1459300710374422914, 13716078743254687369, 10424627005729674702, 1908595087345336163],
    [16179531414644306725, 13205272366699185595, 624115520404445670, 2190946265226872722],
    [17307642389887389984, 933936220187440286, 8089359410070818779, 71992970489067401],
    [17824369865114876077, 3409729442343924530, 6056219292853570111, 2996121479957159237],
    [11867380687713616978, 8152790512200160868, 10079577775792099798, 1858649722170627069],
    [4762881307184847944, 12524707015370918655, 14142448838836772017, 2909281837759172748],
    [15874161406748833006, 1331628783681354161, 2086534404438637964, 3434768568504526876],
    [13016162934366502220, 7021411748671073203, 18151218539807698899, 3442812370708844070],
    [4679965604810239125, 2101986934198600745, 6637181975523617010, 1339483376071430373],
    [14007683259750806056, 12269593469221122172, 3353189221863105614, 2423151943537393103],
    [18022531615905880759, 10296655121272138114, 9864259453279460762, 1931929842795452376],
    [17923154558928680466, 6089448531730426839, 5175065456004227281, 807647064760950404],
    [17630662141355248496, 7267169234642878469, 3653397282001743658, 829453284790548619],
    [4701536714233668583, 13684737575441485905, 11613649004554537258, 3209608224464662373],
    [48728241872826249, 10129350144449937735, 3410703213336614946, 3448847351015256336],
    [16419431964557872396, 13674915305457684838, 2444183072787670159, 3210357981279301868],
    [8191929567075887384, 6469959015472779363, 4855551162233965215, 945403628072281766],
    [158727652995641563, 10981641446340228199, 3827039644440875991, 2007922165019641265],
    [728784893390683799, 2429170184364397387, 6253658929049610185, 1597293683371203800],
    [7465653234797784746, 12672611700029084200, 14166540675144886728, 3343955368954575724],
    [10737848755691953105, 13316441068514589202, 12114015327777982540, 3444166646711267252],
    [16065224002444883104, 2610292721900147734, 8414640648123719262, 2213068532440828439],
    [2965283996920927783, 10930504495486795691, 10027837036331890016, 1675415783177996419],
    [13487334092573522449, 18191381323587897695, 11564851716689201555, 189247250050000943],
    [13166697574174597318, 3613485117305501830, 7195182581535895826, 2895641587862728537],
    [4101304008878948025, 936114174667882546, 8090209713823255013, 1989108584852485617],
    [8792967960115329756, 10355009663928605703, 1287213603576625012, 1799368811807218943],
    [8484139188861037188, 6650066542508141841, 7555731475083182360, 2427174000803988627],
    [6185705598891718839, 4208846341820754388, 15894259355308069723, 836014533714758549],
    [755401648633660674, 9356518793073386461, 4955056939082453152, 1963920665251152015],
    [3862962271094256082, 11024808495302379558, 10370483221016350260, 2645002441883743624],
    [14804689572845453591, 8686453399215119337, 15420331755542666498, 3103523229877512666],
    [11087850425353693406, 10076978978379494418, 17944068919312937278, 2315546681985649986],
    [12612335875000967262, 17666651784149908707, 15166144646152517240, 2341548515443325719],
    [6550718393883710749, 12701346330421642833, 3581105642195612329, 361444693152523124],
    [1367288016682497866, 5332923614065051104, 11155565938567078054, 7736695337681445],
    [17603670072141334606, 17272987085072847091, 17243585277871168983, 2216218592561511497],
    [5875006885783709952, 10537908699619434821, 9842934652457217535, 489515664818160031],
    [5574105164020813187, 17743249821744169830, 13986810838980994141, 2815497573416473367],
    [1936331356809149186, 13479295850360343411, 8145578311573976077, 2124864943408231632],
    [2179849664422209133, 13073865840319168427, 9652681991944791021, 1730792633486934941],
    [14926527869842170170, 15957602368679205452, 1250417037737698939, 2035374361313081079],
    [11366199833667737100, 17593405203784534243, 3333872771637624616, 831055112462830330],
    [8411212302695934994, 5395126445412535751, 4989662535904300375, 3027384805640142213],
    [16643451077064277308, 11010614999127987826, 13159786684327854190, 284037651980240089],
    [2044253535304399310, 17673218083379829559, 13825073454542711142, 2238183787255281570],
    [8414097752612522828, 5218448262272115230, 9890709863323489100, 95950788485343531],
    [5772011299254848266, 7861256438297254790, 9875971108525937544, 722024770176709895],
    [9037300918473413852, 17930435831445037005, 16574607749442419358, 334519348306792384],
    [8317309235287166861, 5244161483513822088, 6208466319124860051, 2383825947769122657],
    [14950961608534339719, 2863757536924850998, 15183018196698340466, 896692597161622927],
    [16188815797800060513, 3015531224607724030, 6553532869522470935, 3284476244270774140],
    [3292331670668400666, 745068775961048232, 3588349405011755595, 1505429734967334614],
    [7947939973283569653, 17910499471393221949, 9493933000998386233, 773594788431230978],
    [2903295341753097273, 9512627340380481254, 8314848857110552684, 834146288776109039],
    [1532440907033886807, 1539966696146594215, 15291781636328373517, 1406982344740637119],
    [3886656838401491861, 333492469183378979, 16471851410495828437, 492067665823853620],
    [10040235385583508017, 9401180139399466796, 15854077727072583198, 1536906754033601739],
    [9743704801867282716, 10362670637618729156, 780543059336170310, 2184171379946903529],
    [4140838421508485303, 16432000936275510575, 11384121898712887944, 635792993076439414],
    [13220453023709936470, 13441282295845064612, 12423622948972089424, 2259609362552620084],
    [12033658891163799107, 6150456349560472140, 15933316496982448147, 1270820986969916485],
    [14871475099881315431, 15163123464701963618, 1011741026995489296, 3065283277764938657],
    [9305039230556471093, 14903202239060658208, 6978082672141715529, 311457066374660350],
    [10326890588496644542, 1242052159224273344, 6167588387276801881, 3046585433170322036],
    [5905197260352203661, 12593626885636827164, 5041914755169550626, 1755266360274201802],
    [16124358592229202134, 7963899203137013483, 14233454459544771707, 1067060953489644245],
    [15371655395654469786, 11052520939812251711, 41065103871028284, 1587716653541489708],
    [11779597873964172810, 748863275696144731, 14512910473145976657, 954587699166730213],
    [17554949439825886561, 8230232498292775128, 7463911311438047778, 688715411350431658],
    [17837064305693691997, 3530348748280365640, 8224624396734537169, 3472012396750697334],
    [685338199690090978, 105771468943192620, 6060494378374284634, 658776239665496041],
    [11457314990587881605, 2572166296638230922, 15370065117212573386, 1673132778465257225],
    [16968199869992981169, 12124210755818662549, 1350650475090089866, 2365234301667637721],
    [9550353722989348614, 1489657301012644192, 3767648750007374330, 402154862755408281],
    [10864867534192029686, 16429941433609750151, 8531089017994542574, 3237743715364748244],
    [4325170822353990770, 543940286539606168, 10932251212543973852, 2855191626907848189],
    [2923526124056823054, 14012665406190429826, 6335591292371220879, 188404865885717439],
    [16538479672646287440, 10182853911109017959, 18440633563809518155, 510966701254593958],
    [2380291261184753325, 15484685569385840258, 4431354562970234090, 1333289222577826844],
    [13062348620693048316, 10520220833564366487, 6433550769840812628, 1916643762290570303],
    [14363549225407436041, 3752250024921313295, 2154136483334210200, 2233856011159014431],
    [5187471298036989962, 13971614387928625740, 3524391305217028944, 289915685740067018],
    [4693604066481880203, 1043297075837820965, 15141308371971226004, 830673637967973491],
    [11913074726434383664, 15236413419703993182, 7668198814174950338, 2889616392746527937],
    [8228731494930629951, 5588483753607145369, 6110850688168422007, 2515020658871572055],
    [5252222733867207964, 14227935210092357532, 12967952655993612712, 130924228517585348],
    [854788594404532978, 4022634903246063926, 11782321113509405397, 2221670329557185530],
    [15600335641020578268, 11876391402234698815, 4901350092871075477, 3435570396643650141],
    [2245901484398865121, 17081038454764294727, 7943144947814511176, 3123955947234154605],
    [3672139406424358231, 11232963244788823105, 11432294202698546779, 1760711069876412044],
    [14574378628720512278, 10069380338278660087, 15214381821310016571, 1938211679974003349],
    [4424738279794046860, 7146479140298397597, 7102920237850366852, 1490656876585103233],
    [17651206228545864861, 4871655596930476230, 1891205931412525206, 1929908882608392967],
    [1055815450626962089, 646149709530078203, 4204756359975840789, 3297367314478176692],
    [17767946897506767634, 16596052938929158848, 9626990262887682666, 3380180472134091448],
    [5934781701171781305, 4383591089371751864, 6779069139126337607, 2769011162972467813],
    [11539225362019041837, 14466654151820885683, 8007212568409987926, 3336436107135190007],
    [13651291784760489216, 8691265465401801540, 14300064488795457395, 1158052845132601357],
    [990728692129487505, 804335452936146959, 7005734491698692024, 1824643006828634820],
    [13488617484273047126, 5844065761670603257, 10355600265990996779, 3348383899531536067],
    [17714191312078195480, 3182805701613058605, 10472957917313629538, 716853859071594178],
    [8325036693894798935, 5303506174715396602, 2795016575861427737, 996245519341826083],
    [11717693106902176613, 3202222745033558123, 13419099615401769290, 1840374348635745662],
    [8550147697324645447, 4996326856548337037, 4000294313501987497, 1723625826060326585],
    [4505718082943030822, 17010325537069923358, 15343425803867006552, 2286070906890983401],
    [8412947293930038544, 4498481673652635953, 11375087978902546135, 144893325711411960],
    [12034168488788897923, 15352204262747033732, 1351842026330002459, 1246274376166152763],
    [4001825577369285447, 16267618405919148288, 7325778700093165847, 115637735629793847],
    [17830100208545320449, 9924556572381252604, 12856777262701729001, 2688641197723503935],
    [167357054947272450, 8585904632805429027, 10659591190619360907, 858157511174487802],
    [1572532437073992610, 11917422447193140199, 700906942979378664, 896629000291060425],
    [3468108035051658734, 11707870961300768996, 12202099696042518, 829575785892031669],
    [18359025234418955489, 46738909445102358, 2390176944250793864, 1678415708648341926],
    [17403323783777520533, 13093899196655706975, 6009160433590065822, 1694230681305446490],
    [755660517839586373, 12414514318088895658, 8412673267164985748, 1305511847956204085],
    [6503556014470594331, 10083053601041220690, 2964627020838402168, 1131188958127353815],
    [9109041194190405620, 14051618183311002005, 4033558293045538114, 2022992511812060163],
    [5258020618567833686, 9559677891167695103, 1393294321762588031, 508595265249807069],
    [14497451329056542170, 17566593112912518503, 9296901957209393014, 774720957029937794],
    [2724638477631493492, 7589903188524044946, 17219834399294151977, 906808431377856480],
    [17587806316351734879, 1207161083120991433, 3434028003078838818, 1613232130541252791],
    [5544343103915140845, 17870822478530181027, 13729871010679450386, 926672708177104919],
    [18281148647327728754, 7850641541704781715, 3557801043351595465, 1046915773798353341],
    [4861196639177801783, 10464755375812922928, 6320935973102048458, 2244657437647272958],
    [282283810953678733, 2221954514194472406, 8225053329857422806, 2493331084189430583],
    [17839849339818886650, 1856690033332010676, 5937904532814911490, 2427001771377909238],
    [16180247985411498710, 6240546519146869663, 16354508469922244541, 3097312312692397659],
    [12006724610430381142, 11615513659152510821, 6367734870042344114, 762728033415035404],
    [13600738679525611945, 17840678034054227335, 2224972071140282541, 3375485579428387426],
    [13606693566665327029, 1909122995265796257, 9965489109344127373, 1221920711501971005],
    [10375877057857352834, 12625662567941673502, 8321264279065877926, 840846023476747546],
    [5791293549416751671, 11138942597924872648, 17782913851898369074, 1085232480454249650],
    [6451563359216739658, 14710189401669258103, 1462990935681432935, 2311977799615565483],
    [14495340088050189014, 15067344989131662812, 1620036980455333466, 459394982779697034],
    [12635479783442866408, 9937367338066031525, 3148937602214607977, 221444773525505663],
    [4817737749106805048, 17886567997014335607, 4501424148843745297, 417645705176654332],
    [17751407434149912605, 6716721288790115488, 18213068608280928528, 2586869981514207410],
    [4603902366454878496, 6587659520477791492, 7539937163643202229, 2747221143194515069],
    [11008060223564739568, 4092871733345256324, 3564017518314962290, 3085378357433054990],
    [18371112212092917619, 9346020485016845177, 138877133813720334, 9705545211764536],
    [11102224599077682640, 11480483807249072619, 5163171560975762547, 1816853194572977321],
    [14578126523943318234, 2445327973886378508, 18067220066140818049, 3074220577191341759],
    [17388454540812282995, 8815729669748230392, 16241477381004590407, 3186259921076138214],
    [2703432405615403560, 10675863278398571123, 1267204382603128799, 819680094850551768],
    [6017575098148136980, 9186822172574443801, 17258611118985063861, 2030460168678941018],
    [6347666042870170654, 5866713522877462585, 5193382286745801931, 977309570742919901],
    [5300486144822670614, 7113883553325786964, 15449009099715126680, 782939338275657253],
    [17384707992512930, 10315021296507218687, 17412775307026495205, 1946902283191148794],
    [9784670519218936706, 2558464695479300568, 13014814317986788993, 1852540996620439999],
    [15514974449865578449, 15304990107729078622, 5499401520467795116, 2775645249938487742],
    [9340545441302110644, 15559251961615206481, 10111973955741361239, 1428319154874844598],
    [7822632574475342879, 13386026058993496867, 5718978657186557847, 3220260187913029856],
    [15635352912338426062, 909425887705220433, 3807561090376916495, 2234068206787090633],
    [6907656952802123964, 4067036256196763033, 15521206525267764385, 1451900301417085667],
    [5552481663500618334, 1113651052683660662, 5534274154367597675, 87328855787230796],
    [6900715074173076267, 9539434746587871850, 17066667570999755618, 3458102527267014727],
    [15199628870393917379, 16815436337147488581, 13326721918125644968, 1975566881000076619],
    [7856555322951848618, 10216929133815068136, 12298881287389479331, 2978031811574671810],
    [7447388003911996788, 13742920297862619490, 15739308674468901240, 913482971011876251],
    [15604419326871954578, 6562605095973266902, 9649357474907682929, 3014867509606460119],
    [1119568273020521595, 4898252784797506596, 8127212000056865382, 3475204958576367335],
    [15432190837464268934, 17486881410930124124, 14357590274030151650, 2528953331756189306],
    [9061219104468281512, 4208438922984278950, 2106255191982748369, 2490114490884626544],
    [3192435671551876068, 3698929794062580989, 8341504427229996421, 3374537713801423736],
    [220315471028976518, 17641997000201047631, 440809894054144737, 2139145201425221596],
    [7910039391642704698, 9776607814536317513, 2946163033199873056, 1738257553985445729],
    [11350215535856746012, 3029321696039946978, 7049854148791929592, 1459090191969193973],
    [4123422635492237459, 1591639978164001768, 9388281857476540601, 487761395309038875],
    [18017536088120444877, 16328219282430046353, 15958382101951733606, 1510902324057066876],
    [11997769442090096030, 16471647838015362786, 13366240106870618708, 2428579135320324271],
    [9397067195725659052, 15513451028145688715, 14843371107922612976, 154031658555077746],
    [855193194769420557, 17872817693213152872, 13994872873825412939, 1826272104000793098],
    [6164069890302406866, 327429843626790174, 5112320091728802050, 685312953780945455],
    [582721743536215149, 7397369447688681165, 8106748236136255847, 80146100259648655],
    [10508608581706110538, 11685352655594282388, 17331762072650948152, 342950255585856487],
    [1866978664098276694, 12263071710471493563, 15333369414652233412, 2439310355942867312],
    [17920009130297498531, 486866905788372227, 10175741945944161244, 1405310385925085382],
    [1135029214759421794, 529049569660025601, 4703829120353270437, 2391583941189481248],
    [18078699596485289300, 17580308447487148870, 942236211975119509, 610568494350560837],
    [9158212389508350846, 6507511375720337621, 4837429949228209513, 787865573224212802],
    [14615272308521399919, 3137755380356057730, 4600694111005360845, 1012030691696087915],
    [5014180968338402958, 6716434844964639102, 17217723353861130326, 1670744418534831948],
    [15698145022203774136, 9918206559364014259, 4499874673492753916, 2807424607193273437],
    [3178468896423781383, 9739286070844293799, 17786885856812674213, 1216063379663523919],
    [1471276239647949078, 17586966051939161556, 17510229834183923967, 2234253296915045969],
    [17706487729348522899, 15799432757173550711, 15560010491587093084, 611600771873464249],
    [4005582733124991573, 869221984134096820, 5233504636792289228, 2277388676694265101],
    [7029346236758552776, 13626859162656336945, 14254622499457293056, 1545195026685974720],
    [8100250773221955640, 2800685621648497393, 14926721701423239574, 2531865158341248503],
    [15907696791114638585, 10616614122729282351, 3819666024228086513, 3217989126630202139],
    [7788698537794175048, 9314093523303495722, 15305250582109117842, 1911920717225759776],
    [11303075884140290495, 17507317722522397468, 11402808312383313568, 2247747072897431362],
    [14506383115542620102, 1230463877358889397, 10315383867284749586, 2601166812269534537],
    [4734019910764418968, 2349702905097976657, 7161777814849947512, 2256669700848274353],
    [12922262997291702813, 15566849545793410515, 6226036346082889660, 2883230016581987404],
    [11609994158287109362, 18372858320528634325, 446491861798356640, 2792998270724286212],
    [9618658151190296799, 17221328584160194266, 8518665867972850897, 276190630107722584],
    [1131573606821806535, 2428621147237898135, 16786396382765132177, 2451915964552355467],
    [11211338687657292903, 931874726205900704, 11524526154831477601, 1004959779798872323],
    [4858551750955984462, 7211294243511485489, 14745666142052071413, 2898780552702334053],
    [6643033284761502826, 699552333580691028, 15896859283836236871, 2786362913212928057],
    [1146147225165446286, 18298596591076997406, 14223244270891890847, 2454699235313181225],
    [5137854008973327625, 2626789741342557346, 17133525708385840562, 565776796549473463],
    [679995492983110063, 15088251567886766764, 3892974243718107384, 192953848239552553],
    [7836755956175664810, 3627647897538205176, 10539942639990820490, 2772961695151703523],
    [11956475242149612714, 13799078954611351636, 10389594931891270234, 3262565199526920653],
    [1691194943394200874, 155003788650916203, 16597430673211552869, 2354976272604433125],
    [16550545283864828148, 10319523939580974668, 11935412714763254615, 147382015990450064],
    [10464493301947887778, 10949501129144360583, 4291642485420295083, 1409839822621742891],
    [12599197423620422744, 3159288060776612374, 11614025512960135891, 330798258260669789],
    [14212162172348812499, 550018133805262955, 12614553095292831875, 2735838178297163204],
    [11376800068810574793, 276225321570001654, 3451656603458464463, 1318842278187321208],
    [2177356295843285416, 8245722538688578476, 12525921878093685903, 3417955661366124753],
    [9959532780390587218, 1772710826291316866, 10352249145233096850, 1423928147639240227],
    [17371367584453775012, 66824904851217629, 17599209502334283237, 597888099614193051],
    [6854081990016051475, 1507540698345531935, 11776199111705923691, 376994867109034844],
    [12860862179644936802, 12073396942597776339, 5224790287993834439, 2575289984584042994],
    [10090522016142174622, 3920452920400418530, 15586453824569259448, 3125487262479933836],
    [13440185984245597620, 7470012140403341563, 6807168182160567175, 2951956412565800201],
    [1321279988328613957, 3633495412877255481, 6222150236632892104, 900558497742600050],
    [11174762584101053491, 10752158307833031478, 1675188112590489363, 2162663703991883109],
    [12501561062039937142, 13217228960784872895, 4674229449522310557, 2079222015569170660],
    [18107750336679530010, 2637121613737674065, 16064329783236311932, 2656631638894173847],
    [4959442890693494821, 291866076990833646, 7416710153604740665, 1143071421532737346],
    [12345996029705128581, 9667816489525462797, 16452579147005594490, 223190012773238924],
    [9167170176004415287, 4534871764832926208, 3747487374090526015, 551921414135466234],
    [1059844831490126458, 14225262472171489267, 17819424801465995500, 2902272379039536880],
    [6054996223866504342, 6411664912839409984, 1369971595339472280, 1339166876865791409],
    [11893941220706032776, 7585254802103582254, 8809938484087424909, 2829704288310473473],
    [57234985312655794, 2489796375691480137, 18414301965702849578, 991494554102186208],
    [3802159801216112697, 16350043580423640925, 13942052015781984085, 682305401516016284],
    [13604171394503760045, 7410278735575665199, 17814457051524922296, 3384629714164410912],
    [2833651469701519956, 14187934479902763352, 4577782467801994203, 1112365688062826156],
    [10093703133586292002, 18281896565499337667, 11688261390726488820, 2326603698667899737],
    [12285366075689851461, 5251451036212963523, 3054923555710701412, 704014612631552875],
    [6554781120450587236, 9062570081298569253, 8195831800130457464, 2110196517777957519],
    [7149907324670256487, 8309354845545798917, 15165189837001625845, 533318386542681272],
    [4005907040157594771, 8021410468997087426, 8164128836033668867, 1768007373712000820],
    [11441698966487736798, 8172566600420746354, 6356720869393765981, 16543143029651260],
    [12263792783052640938, 4922914784977040319, 15783857594401406589, 1666133112593509111],
    [4235283860653882016, 987216875280266742, 15640320342014394117, 1736513294171438873],
    [5866423949542860800, 10531938095368939267, 11928564632654585317, 1577671292047144883],
    [1054239732833083753, 6103700247670904905, 5415570212524415309, 1148058015824962423],
    [18199943526656693117, 8266732157722765705, 131989530318531143, 997920187098657184],
    [1939885535548615864, 13466751372042613576, 8267736382387663817, 2422854800835179641],
    [17680267406110154911, 15506478309354411019, 13124828629697909619, 2294036181772852979],
    [14002357292218261689, 6436860477649242230, 12072219967381118202, 2273482111012228075],
    [12425116934835476204, 6703964773877985281, 15082100408227030625, 366326579467101079],
    [8370176753320702677, 16790348184256140286, 6933839869011005072, 2679839128506447382],
    [17658145342095021237, 9908154785898334639, 5903316674011403618, 1586085560031324169],
    [16020579513254857854, 8749100717598328382, 12454832249094419986, 2537926967889916603],
    [216001193860781640, 17394079090495223103, 16812591092418522088, 1750127475594122184],
    [13954418694066913699, 10375557610539161846, 8378858714851679845, 1873578224874020994],
    [2686955467226622227, 4492680062441726698, 6150019724544314092, 2065406180885047752],
    [10009420822571946913, 9309271989716247269, 5699009423282500276, 2928079662043900558],
    [16635727393310381374, 8300597212511365459, 12247000142159898442, 2436938798781692268],
    [2082612406067846115, 123948752638265284, 3645590729497458159, 1761211962042784409],
    [11318681382726647916, 12985208220530044355, 735787064625710083, 1283705691724082791],
    [14885889703880576869, 10686217926595013933, 14561783235796282579, 1149806791214493476],
    [11529505619055905061, 4572496908229584432, 4940237186508827252, 2320354671658586753],
    [7341346663983130134, 4142559999372578478, 788033614870032745, 2697551718719503809],
    [9803272930282320265, 5771137064966167401, 5694294712910777834, 1462442143659313624],
    [13586058431297107300, 6534523263084028212, 6017006349075466221, 2991684040986320177],
    [6157359589965934785, 3437987561958725700, 11690681739701975977, 1786514952952163772],
    [5460035966269912641, 15667121648157036752, 886939765682713797, 1822973958663818687],
    [15614450258614962914, 12902917730329553597, 6242274410061050257, 2592171351650442152],
    [15870097061112889350, 317248516201075838, 18057691883178557651, 2725465680106737264],
    [4961556619899217934, 14730874306754037706, 14401085261261276074, 2094318275069725901],
    [323113805947077839, 5695329345604131089, 6341060737753065617, 1820485520516104166],
    [14850767776466585287, 18272693936814067479, 14699437753615977437, 142265471174589157],
    [9961003746934904696, 15527037611620820517, 15347046933708378268, 1356851562893366065],
    [5283103231719058992, 10971881154596118954, 13284285325116824497, 2856035783308695191],
    [6262282883344752112, 2642485790024737270, 4710103504680854276, 463729102892614852],
    [449394879555176978, 17488746434879468623, 17936872115958352828, 1649048596087463686],
    [1640900858223433524, 10817471451884559639, 13435039876745189000, 2022304497396928002],
    [9371050462617733747, 3358659620090099515, 13946677483302243675, 3231271879626562285],
    [15340116002320363807, 9824211133622889947, 17109101986038313652, 2538089319661050521],
    [3574869418397586162, 8753590792079190410, 4207374612803298585, 3477277375938555299],
    [3526047188594721710, 9549059154394070863, 8645364919970731148, 353049923121264109],
    [11421893890645802607, 2144153652026948284, 18049281099636718994, 1811888031015800891],
    [7011766053167114709, 17651897724852473945, 10176108066286256722, 1961713582904335534],
    [6472557420872111792, 1337549735095571222, 3705594196306503165, 2412333860334130494],
    [17125160747553435452, 16075554759240982033, 1000920168261102048, 3172025036665484802],
    [6708876106857948393, 5142950392753679779, 6004491857206280890, 2272172791002466254],
    [4345045306155692495, 8779519293416012721, 269622867226962281, 2327616192003797218],
    [2097074397778064565, 840948937425749789, 4237403834229950487, 1057384692454500983],
    [5782076558322031919, 5679320185308563036, 1585410375742395828, 2469556538893105861],
    [4390442735361195966, 7862419968382998748, 12332035331832883841, 1977969763978762529],
    [3459063862431525012, 15319330286226487340, 16267705090745107890, 633584387723783449],
    [4188858863594070477, 13200418348214088319, 2638911391288213431, 2871065945828071547],
    [17457902518847207930, 15161300156913747214, 15494743156526187389, 694374817529805276],
    [12172425741938188214, 16869485103563037418, 7022653980326157519, 1935698206841343860],
    [10773667477234439936, 12335853345459541623, 9226422518441702042, 3036363874751212448],
    [1990833208781019757, 17910630045023677351, 2984676544975762550, 72932287477908675],
    [15132754218264180119, 16520265591452338094, 17173238265470617690, 830326972282094516],
    [15699406257689489798, 682164582558953151, 3506937201820282842, 1731207242298297766],
    [11234916579861193179, 13174538966159520061, 2925395645051806036, 249701007770206461],
    [15303853385210339191, 14601144017725347531, 16004160934948534320, 261525678708856444],
    [18139687006067226497, 15326184836936438296, 11007735588312753793, 289115464447267005],
    [1008089078325235096, 15812436369103480969, 2749005537092770347, 2975352650336268860],
    [15968871950239862565, 6879193289208153175, 885295523024217016, 2323160593409979086],
    [15890229741388111608, 10571824169675625673, 7290985395385890670, 951267231555300127],
    [10923845253483449248, 5028495879704325537, 2930276972049124448, 1552585328945465194],
    [1305409575878418109, 12114654465526951283, 17123648613691689599, 3290468536836876833],
    [15562418357762757136, 1425882119959583372, 14726408511028211558, 1886859825860852833],
    [2877838621009487210, 11133539617060386578, 12258235599473939574, 2064763399545052981],
    [1687614646143979, 15441754690555260955, 9194065553734097701, 304753602204061434],
    [15690846003029046434, 13993109016946849755, 15582457762601570828, 1075540711063739757],
    [5829885310276697843, 13715608996490795322, 18423146137062361382, 223898408859837526],
    [16390221367664797520, 4060143039647417131, 2843193484086311497, 2761497943194275703],
    [17318348797889887192, 8928162993197240030, 17472566145188453226, 2640671824084697510],
    [4147149246499859010, 12951012237376766266, 17201508756145910081, 1946913937319759723],
    [16181740376832494623, 4335115700026011067, 12199372375683373340, 2957632265917180397],
    [14398275813985268568, 5537784905792341916, 1500363935521417232, 3026750105598641609],
    [8954069393115894911, 3328807672401268592, 10299914442150349396, 131982885120699851],
    [11512214851863995048, 16817324518608626862, 8871293120782771779, 380090106203900789],
    [3828710574829455136, 12322493743033440229, 14665593138843461781, 1872374868878930607],
    [11345936842588859750, 1564362188469278814, 5381826182488616710, 2437007102086991463],
    [4538086061646822167, 1935944517516250032, 4307677527042265688, 2780248827126838994],
    [4689079623689624034, 10826284928960342711, 13600404362577820173, 2594937663151175829],
    [13532432155810565363, 5144521529217948224, 12428219326652387213, 2767549561396562696],
    [10929218600584698904, 11514460209530691525, 11656069798861040801, 2407571758316897242],
    [11850569974172576781, 12034611477310407526, 15315035093506179512, 492270336873979004],
    [2805471650420184058, 1925702855566862211, 17572506625767236535, 1207561457456986282],
    [15964102278699526147, 17328112604986780129, 11971039496125537604, 741843320009763146],
    [2983057610387617727, 6232933822357195434, 17933729163862834266, 3105895303823345465],
    [11020673015444562774, 17561045298050402658, 10308943038546826660, 2199315858168839958],
    [1762919944572042451, 16177212091963317424, 104797510676270036, 2897552063492515067],
    [8529890089731214660, 4902261060612707427, 18383853342426415617, 2327799694902080300],
    [6853293283146109610, 2175523491815964915, 2363234443423517526, 1739242309666914075],
    [15966553104732240541, 13317559191894742694, 7469239104141309885, 2225904866687578605],
    [2459206620123091984, 7263163422177333900, 11456082673150354798, 2919899005371675721],
    [1339511610158290837, 14856458256078139845, 2495577344344853804, 37775879282348624],
    [3092559293873344106, 18441246422232342664, 11307080507652345068, 271450522157127325],
    [16532028774492549325, 16697344712169415459, 345593512252746758, 1800688698084961912],
    [16291557521752336894, 15257384749910382402, 14277755688605797340, 124394211331054147],
    [11838001280807199466, 4044340370618451890, 12101885147986879115, 1197013646269811825],
    [17605012030106573818, 7759563180728942133, 7558425824832742090, 1123669335181054615],
    [5551605165185996070, 7537427905283250605, 16266006155533323951, 2451509929006638701],
    [8824301355067163165, 1996397662186530791, 10355447782094818673, 2966302788963908093],
    [6569829578586920768, 16082095426623200379, 11780680957492183365, 1090305168790641006],
    [3567283126512847440, 194497088444059304, 7648783911461107803, 2394013255439819027],
    [14234051551981501369, 3072938323551244140, 4560687208490471898, 496008839138135469],
    [11333291521220565447, 8894996036145239980, 2999424925770259554, 2218042042189088586],
    [6211665243877596528, 3656319756378592672, 12939655673310595404, 1040152495259207135],
    [10118933986221437642, 5352425876695884239, 214326833854851554, 1628825094902607230],
    [2352759454188050832, 6979808492955684045, 6007456829695102442, 3250980465751016793],
    [14194482735970344005, 13726137848552200170, 7226427086179246929, 2272706815834045353],
    [1114229836527831848, 11009534750999843832, 17559673134668805235, 998362558896662465],
    [538747704244809601, 3226350144284412913, 4559650380947399759, 2131911283764787488],
    [11238270075133078461, 13370472111937606513, 5437562997607864740, 2743180294405077375],
    [18228601196870467984, 1542148795884727291, 809896088270663773, 3212128412103079212],
    [9773339946375088120, 11070006510323101210, 8500385761544739177, 3067637251986336251],
    [7305954348383564516, 4143452010802215201, 2294987717145386513, 2386290843320580183],
    [12898780154942969697, 3798637881114578152, 1795201998414468440, 3133902983075212583],
    [10388038404368752860, 17603430635235751584, 16068446257337572023, 1709768452075034637],
    [17951301515671634702, 4210257216786664480, 6796109861603278901, 2729510554004699497],
    [910546733942970032, 17703179365907219707, 13060747720749589488, 675199321035145303],
    [777790492103293620, 16778670497181685428, 218107541946153607, 1230237759464788704],
    [3420442680473887571, 12664390542334278294, 4140963366655262996, 1975198413275550414],
    [163311987901076099, 1954643451491722780, 16732282382224757205, 1784386573764180619],
    [9958977275430760240, 4067338553256495777, 12546706450625413826, 229119965367484222],
    [5825833563432051897, 13097977489626570872, 17646897339775367399, 467982032913188415],
    [13149408962193025225, 6343146717324346651, 3541019442971243714, 1759372664379145063],
    [12967296636482810276, 16635028243863885866, 14306000953781616259, 2734017065058792206],
    [12718894637785034634, 887341186088974110, 4708026632365055139, 2966189059447275319],
    [10744684478324424059, 737814649429747225, 3660829839858007919, 1334890357987088325],
    [16913048478668856150, 11736762322939877088, 11000959950351580795, 710771000113505886],
    [3697337508237615631, 7952395712658613569, 7159402136502105378, 1404275361698262635],
    [3958747600390589927, 2011639790305718868, 9723475923343830869, 942487543901519121],
    [2502521494717711891, 4338505878426622935, 2294883434579403826, 2142729360485538990],
    [9172742281672625573, 9425386650617655952, 5827741105217612705, 2598673402069221034],
    [16318134147160761145, 13463428176898907472, 14036200280567299234, 561390613285332415],
    [13904969747015744709, 9807977476976010400, 16059121614697875005, 1583779375024230955],
    [11415872433942961664, 6738391707428117457, 13813196467855423668, 934574878394684855],
];

const M_T11: [[u64; 4]; 121] = [
    [12752381838601681454, 10313698059184076678, 9868686762743109243, 175000850574921121],
    [16679733335612088211, 7193281848976548519, 4770363499436317140, 79396946753143671],
    [13667532428494685098, 8129502624220455994, 14664662400891032885, 3033362699531025939],
    [14945937640456088350, 12634927548548549060, 14090505059841516709, 1651650645126507875],
    [6438778006746722226, 1158795113106154897, 5729756344578144578, 195886002219414995],
    [12351086545807060784, 17574156571474965612, 522144851590229194, 891231016008258869],
    [386635115885155085, 17946070794830349297, 7173009089188999547, 99612104283989197],
    [7713281306969421854, 931899404179025018, 1964289461136937682, 2466987187800884541],
    [3656407693414789798, 8416465712572366679, 9538112320156666875, 1936654370447002889],
    [5199648366305253571, 14471481993446339312, 16884542083016062778, 315693613623884073],
    [14439534471752072768, 16520619523435361604, 7192262017065680856, 1493536271935697724],
    [8762439462518443248, 7012797157938455884, 7588263759301058930, 42805946241483939],
    [13715507997017584931, 3344781560019095164, 9723519800304277731, 1483284083408732360],
    [3394387598427068412, 1339559399098433843, 3668130348313076766, 978944472100812140],
    [5945151533680789291, 11370969924495024632, 10897305751354660092, 794306308361970026],
    [1659319063296738730, 1009869852192293679, 15509833662553627746, 2525219980194135113],
    [7604437937489633571, 818158092591462302, 5256587939318568681, 1572345209147388944],
    [10777004743910446548, 13685017882115641474, 13942375566069361949, 790856443562653212],
    [14247855098489882249, 11893100800009772755, 13302578972930706594, 2136101382405032673],
    [11122387590819045713, 1773577213506034321, 872022208850435586, 2909512632139486844],
    [555823025127668151, 9159357047476722730, 14909122710483638418, 1657100184200745499],
    [6899804233981368859, 10079790688276527018, 15574615811477280522, 1990846353730053808],
    [13486323879402122592, 2954657403507794929, 2444707753970986363, 9052777313183165],
    [6412993668704406419, 1119980197852058430, 4870709435889079450, 1266431534043754498],
    [14633468273123641459, 11548928949037755642, 15010176926184990631, 559061629115127379],
    [12248589754610216541, 6589958608476848405, 14096870545719785145, 3402835644010210563],
    [7889180777386265112, 10431099271918648280, 959053935474220998, 2333798594864725449],
    [11630019723829543222, 7640329777811656813, 4639114832529838487, 1931175667878056319],
    [4842411454975244563, 16590756942108209167, 6790441630967042095, 424794186965863054],
    [12102289696565370152, 18081839290384560291, 3883790251489491596, 3346328089567476824],
    [14149944987448013437, 8273526038126580775, 12810698711115250748, 775251359371975594],
    [4503593510812859648, 8372957406986952503, 10556458181992873448, 149541934900871097],
    [12753792408379407387, 906363289054231583, 9931202156103607336, 151422415826560294],
    [8061052764911063037, 6865796273107530213, 12074496272184831956, 1310651592819452964],
    [2770324394608724857, 4370035425562120121, 6202996480697860212, 47617472024138080],
    [1429361595053113875, 11210906333294863793, 4619113080147773153, 1112789694699115020],
    [12396283029428271093, 13905774269713830507, 15384186987547711630, 726625609309196581],
    [9255793241060991680, 12284957690967418607, 268318268142971333, 2456923079957434031],
    [5273787104845674476, 16603391092252939120, 12104551496065216629, 3430566013623351431],
    [1658380318194625321, 12254107408469875832, 14797984581530264217, 1507368989565954525],
    [14037486331557013814, 18225738561524712991, 13343380891724254743, 1440628230362373029],
    [8728386585182664336, 4371635864595633504, 9178803609453876770, 229581263707713285],
    [5734751152057363119, 12058734457378132018, 2168017451230722957, 3093370386471409325],
    [2009220719041834870, 4069731473894794870, 7309561065916051086, 1313468161266295729],
    [4134176964081944057, 8113199522919274464, 7819505745744360992, 2722289280546677244],
    [17831781587133828156, 9323380082968777549, 15669239213796846764, 2052861407290209741],
    [10471561448416286986, 13414789430847260145, 18116599163983411357, 3230927850826095685],
    [11405659026880763996, 13216384247237800687, 12232923536409400101, 2109206079886215380],
    [16205681744575491878, 6028689623317534835, 5402378906625979279, 477070309065000461],
    [13180213127255116173, 8292398788780189496, 13415895960806295150, 489433044340673613],
    [16648326403269782638, 4729693857040763454, 14318418437734471576, 2165693130153305620],
    [5215310777255875204, 8960471118211906432, 15440580254646003567, 2055783915072886279],
    [17958985084863520762, 2011138862539219176, 9419628639415818131, 2403810409605873076],
    [17766632042262954694, 371581519758440443, 8897600053311426961, 2252358811364041395],
    [4115923939372683878, 18010614578139287009, 688863346621738362, 2147713472420897968],
    [4306216465398980927, 6438130767707640047, 14355900155466133871, 2462883370654486312],
    [11516068583303337159, 9530323188829290392, 10207730769701293832, 1367837136756623830],
    [16832244910990573582, 13640872461975221938, 5076593427945836791, 28755726862557894],
    [1561669505434638977, 7889871671552001461, 9809878569273210647, 762413284523064419],
    [13245670271700460073, 16065244333786487260, 12910119596593731202, 730252917673401301],
    [5138274673490850351, 12108661279224369808, 16753689599429326282, 1971917176339568006],
    [3803319236751573230, 3428333255904189678, 5740864355657799574, 3433816521208617843],
    [11384422630185102528, 7506184234697544513, 18062553543174745843, 1336640092383857604],
    [10024575285094172333, 3498991381306843970, 11786729760138513404, 371266257157542958],
    [10918550985480863857, 16805170640915019820, 14148577550785262741, 2509039687132339808],
    [11030439511889341224, 358408419318723454, 9569780840266282685, 2679206871616191861],
    [18307715327311454956, 14215979999287583960, 9730764343144559985, 1591125426894762493],
    [13018449678407094888, 500762363885573781, 16225271180618903465, 3417192019904529691],
    [16674226611057399947, 11172015256945330414, 4261213575014133840, 622041444737165547],
    [10582038905405290894, 2636423376445058709, 12249548778591929262, 3417972976818116952],
    [18035183974064208879, 8337616834407055083, 3331318798892459586, 1715506600990371283],
    [14782847127833337277, 16612026800088556439, 16297279378921098645, 3088306458282158503],
    [14468626850544145792, 5164719158688605617, 8086562903565159785, 1495163401270143286],
    [9523649178599210290, 5436588932836132062, 14879199512406501298, 3167477278626266656],
    [1556881237533413900, 1943554125460645870, 18025418855781246113, 232942146092924858],
    [528356028777987270, 16777388996531938355, 4854147161757506954, 2638899854584755498],
    [15250360923433908250, 13214505687504051757, 523071175519289047, 1849017482578731575],
    [9254491476217356977, 7840150923060947664, 17705286847839137288, 87129550910804401],
    [16287525234099724740, 17277612251243992783, 11405712581355413578, 2019520848305625099],
    [13908144091806413862, 1504504508296958352, 16753780425029465862, 2617319504674157165],
    [1426453682754561068, 7007211965312519667, 13588411810623359444, 1325215817676147303],
    [3644355414977619567, 7875133302608335524, 4626346478470049670, 2954693339264396977],
    [16215015021407506252, 18159601410385283864, 9400042715980962348, 1912775100973108104],
    [11807348644557449316, 16179365322328926744, 372676108398827, 1723217910378422746],
    [3609294899637597056, 6315237970395231208, 13844435241450670207, 313750701620463267],
    [1971914961395291249, 15195306407467882837, 2772440777477495953, 2688150682891299929],
    [17778913966393053804, 498018369538140895, 12427824740008562078, 1344771628291551265],
    [11792769075047534207, 16519380444721427633, 14792365595916933783, 538160292548399631],
    [15704368486627096392, 6766045213836664060, 5096783128153588822, 2026628540980617880],
    [11645046251754383884, 8458644333489064210, 11762681199714635625, 2384767843536324497],
    [15338167975241875847, 2597313278134988258, 5869209160135086183, 1361412276259152921],
    [15104834516796307918, 4599886965975053789, 17406422702068288044, 150972267828398881],
    [14285962283737095374, 10231111540383658559, 7356221836690550655, 703884211859170386],
    [18401257541618136001, 5760541657096721426, 1864491435509793764, 2890970201216750089],
    [13570700633055582619, 5950167815873708604, 17930113975444949801, 374898986495561069],
    [2024965680552078192, 16507705756380139184, 13385762103264062818, 2903923941931567100],
    [1842476601477014601, 1182222458095007862, 6136816389432085136, 358693818498832348],
    [5979288591422036232, 10570286115403136097, 14522013538885062572, 3253358868148689654],
    [9555943792902956014, 5167988565260370775, 16077395593194254735, 1304415945361445724],
    [13295751895242535447, 7942838326471729341, 17584798096480522601, 2518811205700124225],
    [13848557014209914477, 11807441000393029618, 13480673178046159543, 2689825488297343353],
    [6288607733196010235, 3555543635687280401, 8078606066121285674, 37357604550498699],
    [17174348412862029748, 3139527949233197815, 2823215319957169772, 3417567485028274637],
    [10430602731951894179, 6558199845110312609, 8674826502084503920, 1730149159102528137],
    [2095024089878073212, 13770152610428854792, 9361801816488856540, 23868755818960277],
    [316708242408025571, 8187291821416604254, 12281970448878173461, 1830743219928899112],
    [8116166292897769557, 9996792471806702084, 4645714978206204745, 1927510617877230237],
    [10612875043329104404, 3897444033380581057, 11656645071097207928, 2099373860660751344],
    [7498743214887906688, 14080312811193200561, 17336098773079099431, 1091117061503848983],
    [1484981442296336554, 6339056462422742744, 8535027087408111476, 3422957908798176080],
    [14015793867349134237, 17267980837269381042, 279191435206710476, 1824329734238029124],
    [18045308240394561103, 17161997133493207679, 2286933835785728984, 1348160264445747408],
    [11153694772782670703, 17778295140190338962, 10179425683374243738, 3177375918792113462],
    [623017227165364416, 4143245308103002872, 1201712554144572450, 1656278912917100592],
    [11324491743372275660, 10869565337339386644, 11256589850131192, 3292602245725299616],
    [9099228271639437445, 3857640538663072964, 11519185860296927166, 1660708572992200028],
    [11904926138870230615, 12375615430342791293, 6784465398987997041, 2213509206659700161],
    [6590721476382035098, 5679443540206993765, 9454913703409585949, 1445966044054450956],
    [17653782086652343685, 39884861576644156, 7654164312247028130, 3262493503406522565],
    [8451972540119506515, 14386993616391008237, 4910067333464801421, 1581624103269011174],
    [13952860174605218149, 7193654172708436485, 5432581994464013611, 2227400294965981002],
];

/// The shipped additive-constant data of width 11.
pub closed spec fn c11_data() -> Seq<[u64; 4]> {
    C_T11@
}

/// The shipped mixing-matrix data of width 11, row-major.
pub closed spec fn m11_data() -> Seq<[u64; 4]> {
    M_T11@
}

/// The additive round constants of width 11, pinned to the shipped data.
pub fn c_t11() -> (v: Vec<[u64; 4]>)
    ensures
        v@ == c11_data(),
        v@.len() == 814,
{
    slice_to_vec(C_T11.as_slice())
}

/// The mixing matrix of width 11, pinned to the shipped data.
pub fn m_t11() -> (v: Vec<[u64; 4]>)
    ensures
        v@ == m11_data(),
        v@.len() == 121,
{
    slice_to_vec(M_T11.as_slice())
}

} // verus!
